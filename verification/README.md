# usg-supplicant

The rules of a wired 802.1X supplicant for EAP-TEAP over a FIPS TLS 1.3 tunnel,
written and verified in Verus.

- `src/fips_tls` restricted TLS provider, the tunnel and its parameter guard
- `src/creds` certificate selection, key shapes, signature encoding
- `src/pac` the stored machine ticket
- `src/supplicant` the outer TEAP driver and the inner EAP-TLS method
- `src/eaphost` connection profile, XML forms, sessions, registration, status
- `src/cli.rs`, `src/harness.rs`, `src/kat.rs` provisioning options, the test
  server, known-answer helpers
- `app/` the provisioning tool and the Windows peer method around the library
- `tests/` tests on concrete values, with real TLS handshakes in memory

The two state machines do no framing of their own: each step says what to do
next, and takes the result back as the next call.
