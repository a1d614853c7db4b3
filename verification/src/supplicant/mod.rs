//! The supplicant's state machines: the outer TEAP driver and the inner EAP-TLS
//! method. EAP and TEAP framing, TLVs and the Phase-2 session belong to whoever
//! runs them: each step says what to do next and takes the result back.
pub mod builder;
pub mod driver;
pub mod error;
pub mod framing;
pub mod inner_tls;
