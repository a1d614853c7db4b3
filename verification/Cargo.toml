[package]
name = "usg-supplicant"
version = "0.1.0"
edition = "2021"
publish = false

[dependencies]
aws-lc-rs = "1"
rustls = { version = "0.23", default-features = false, features = ["aws_lc_rs", "std"] }
x509-parser = "0.18"
zeroize = "1"
usg-fips-tls = "0.1"
windows = { version = "*", features = ["Win32_Data_Xml_MsXml", "Win32_Foundation", "Win32_Security", "Win32_Security_Authorization", "Win32_Security_Cryptography", "Win32_Security_ExtensibleAuthenticationProtocol", "Win32_Storage_FileSystem", "Win32_System_Com", "Win32_System_Memory", "Win32_System_Registry"] }

[dev-dependencies]
rcgen = { version = "0.13", default-features = false, features = ["aws_lc_rs", "crypto"] }
