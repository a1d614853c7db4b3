//! The connection profile, its wire form, its XML envelope and the provisioning
//! documents.
use usg_supplicant::eaphost::config::SessionConfigBlob;
use usg_supplicant::eaphost::config_xml::{blob_to_xml, from_hex, to_hex, xml_text_to_blob};
use usg_supplicant::eaphost::error::ConfigError;
use usg_supplicant::eaphost::profile::{eap_host_config_xml, lan_profile_xml};
use usg_supplicant::eaphost::{USG_AUTHOR_ID, USG_TYPE_ID};

fn sample() -> SessionConfigBlob {
    SessionConfigBlob {
        machine: false,
        server_name: "teap.test.local".to_string(),
        mat_vendor_id: 0x0000_9999,
        max_fragment: 1024,
        selector_subject: "USG-CNG-USER".to_string(),
        roots: vec![vec![0x30, 0x82, 0x01, 0x02], vec![0xAA; 40]],
        mat: Some(vec![0xBE, 0xEF]),
    }
}

fn refusal(bytes: &[u8]) -> Option<ConfigError> {
    SessionConfigBlob::from_bytes(bytes).err()
}

#[test]
fn round_trips() {
    let cfg = sample();
    let bytes = cfg.to_bytes();
    assert!(SessionConfigBlob::from_bytes(&bytes).unwrap() == cfg);
}

#[test]
fn round_trips_machine_no_mat_no_roots() {
    let cfg = SessionConfigBlob {
        machine: true,
        server_name: "radius.example".to_string(),
        mat_vendor_id: 1,
        max_fragment: 1400,
        selector_subject: "CN=machine".to_string(),
        roots: vec![],
        mat: None,
    };
    let bytes = cfg.to_bytes();
    assert!(SessionConfigBlob::from_bytes(&bytes).unwrap() == cfg);
}

#[test]
fn rejects_bad_magic() {
    assert_eq!(refusal(b"XXXX\x01\x00"), Some(ConfigError::BadMagic));
}

#[test]
fn rejects_truncated() {
    let bytes = sample().to_bytes();
    // Any prefix shorter than the whole profile must fail closed, never panic.
    for n in 0..bytes.len() {
        assert_eq!(refusal(&bytes[..n]), Some(ConfigError::Truncated));
    }
}

#[test]
fn rejects_trailing_data() {
    let mut bytes = sample().to_bytes();
    bytes.push(0xFF);
    assert_eq!(refusal(&bytes), Some(ConfigError::TrailingData));
}

#[test]
fn rejects_other_versions_and_bad_text() {
    let mut bytes = sample().to_bytes();
    bytes[4] = 2;
    assert_eq!(refusal(&bytes), Some(ConfigError::BadVersion));
    let mut bytes = sample().to_bytes();
    // The first octet of the server name.
    bytes[18] = 0xFF;
    assert_eq!(refusal(&bytes), Some(ConfigError::BadUtf8));
}

#[test]
fn wire_form_is_exact() {
    let cfg = SessionConfigBlob {
        machine: true,
        server_name: "\u{e9}".to_string(),
        mat_vendor_id: 0x0102_0304,
        max_fragment: 5,
        selector_subject: String::new(),
        roots: vec![vec![9]],
        mat: Some(vec![7, 8]),
    };
    let expected = [
        b'U', b'S', b'G', b'T', 1, 1, 4, 3, 2, 1, 5, 0, 0, 0, 2, 0, 0, 0, 0xC3, 0xA9, 0, 0, 0, 0, 1, 0,
        0, 0, 1, 0, 0, 0, 9, 1, 2, 0, 0, 0, 7, 8,
    ];
    assert_eq!(cfg.to_bytes(), expected);
}

#[test]
fn a_bogus_root_count_fails_at_the_first_short_read() {
    let cfg = SessionConfigBlob { roots: vec![], mat: None, ..sample() };
    let mut bytes = cfg.to_bytes();
    let count_at = bytes.len() - 5;
    for b in bytes.iter_mut().skip(count_at).take(4) {
        *b = 0xFF;
    }
    assert_eq!(refusal(&bytes), Some(ConfigError::Truncated));
}

#[test]
fn hex_round_trips_including_empty_and_high_bytes() {
    for case in [
        vec![],
        vec![0x00],
        vec![0xff, 0x00, 0xa5],
        (0u8..=255).collect(),
    ] {
        let hex = to_hex(&case);
        assert!(hex
            .chars()
            .all(|c| c.is_ascii_hexdigit() && !c.is_ascii_uppercase()));
        assert_eq!(from_hex(&hex).as_deref(), Some(case.as_slice()));
    }
}

#[test]
fn xml_envelope_round_trips() {
    let blob = vec![0xde, 0xad, 0xbe, 0xef, 0x00, 0x7f];
    let xml = blob_to_xml(&blob);
    assert_eq!(xml, "<UsgTeapConfigBlob>deadbeef007f</UsgTeapConfigBlob>");
    // The document's text content is exactly the hex run.
    assert_eq!(
        xml_text_to_blob("deadbeef007f").as_deref(),
        Some(blob.as_slice())
    );
}

#[test]
fn xml_text_tolerates_surrounding_whitespace() {
    assert_eq!(
        xml_text_to_blob("  0a0b\n").as_deref(),
        Some(&[0x0a, 0x0b][..])
    );
}

#[test]
fn rejects_malformed_hex() {
    assert_eq!(from_hex("abc"), None); // odd length
    assert_eq!(from_hex("zz"), None); // non-hex
    assert_eq!(from_hex("0g"), None);
}

#[test]
fn hex_edges() {
    assert_eq!(from_hex("DEADbeef"), Some(vec![0xde, 0xad, 0xbe, 0xef]));
    assert_eq!(from_hex(" \u{a0}\u{2003} "), Some(vec![]));
    // A sign is no hexadecimal digit.
    assert_eq!(from_hex("+f"), None);
    // White space inside is not tolerated.
    assert_eq!(from_hex("0a 0b"), None);
    assert_eq!(from_hex("\u{e9}0"), None);
}

#[test]
fn every_white_space_character_is_trimmed() {
    for n in 0u32..=0x3100 {
        if let Some(c) = char::from_u32(n) {
            let text = format!("{c}0a{c}");
            let expected = if c.is_whitespace() {
                Some(vec![0x0a])
            } else if c.is_ascii_hexdigit() {
                let digit = c.to_digit(16).unwrap() as u8;
                Some(vec![16 * digit, 16 * 0xa + digit])
            } else {
                None
            };
            assert_eq!(from_hex(&text), expected, "{n:x}");
        }
    }
}

const BLOB: &[u8] = &[0xab, 0xcd, 0x01, 0x00];

#[test]
fn eap_host_config_names_our_method_and_embeds_the_blob() {
    let xml = eap_host_config_xml(BLOB);
    assert!(xml.contains("<EapHostConfig"));
    assert!(xml.contains(&format!(">{USG_TYPE_ID}</Type>")));
    assert!(xml.contains(&format!(">{USG_AUTHOR_ID}</AuthorId>")));
    // The <Config> carries our blob via the envelope.
    assert!(xml.contains("<Config><UsgTeapConfigBlob>abcd0100</UsgTeapConfigBlob></Config>"));
}

#[test]
fn lan_profile_enables_onex_machine_auth_and_wraps_the_eap_config() {
    let xml = lan_profile_xml(BLOB);
    assert!(xml.starts_with("<?xml version=\"1.0\"?>"));
    assert!(xml.contains("<LANProfile"));
    assert!(xml.contains("<OneXEnabled>true</OneXEnabled>"));
    assert!(xml.contains("<authMode>machine</authMode>"));
    // The EAPConfig contains the full EapHostConfig naming our method.
    assert!(xml.contains("<EAPConfig><EapHostConfig"));
    assert!(xml.contains("abcd0100"));
}

#[test]
fn host_config_is_exact() {
    assert_eq!(
        eap_host_config_xml(&[0x0f]),
        "<EapHostConfig xmlns=\"http://www.microsoft.com/provisioning/EapHostConfig\"><EapMethod>\
         <Type xmlns=\"http://www.microsoft.com/provisioning/EapCommon\">55</Type>\
         <VendorId xmlns=\"http://www.microsoft.com/provisioning/EapCommon\">0</VendorId>\
         <VendorType xmlns=\"http://www.microsoft.com/provisioning/EapCommon\">0</VendorType>\
         <AuthorId xmlns=\"http://www.microsoft.com/provisioning/EapCommon\">192000</AuthorId>\
         </EapMethod><Config><UsgTeapConfigBlob>0f</UsgTeapConfigBlob></Config></EapHostConfig>"
    );
}

#[test]
fn a_shown_profile_hides_its_ticket() {
    let mut blob = SessionConfigBlob {
        machine: false,
        server_name: "a\"b".to_string(),
        mat_vendor_id: 7,
        max_fragment: 1024,
        selector_subject: "CN=x".to_string(),
        roots: vec![vec![1], vec![2, 3]],
        mat: Some(b"ticket".to_vec()),
    };
    assert_eq!(
        blob.redacted(),
        "SessionConfigBlob { machine: false, server_name: \"a\\\"b\", mat_vendor_id: 7, \
         max_fragment: 1024, selector_subject: \"CN=x\", roots: 2, has_mat: true }"
    );
    blob.mat = None;
    assert!(blob.redacted().ends_with("has_mat: false }"));
}

#[test]
fn accepted_profiles_differ_from_their_wire_form_in_two_octets_at_most() {
    let blob = sample();
    let mut bytes = blob.to_bytes();
    // Flags that are not used.
    bytes[5] |= 0xfe;
    let read = SessionConfigBlob::from_bytes(&bytes).ok().unwrap();
    assert!(read.to_bytes() == blob.to_bytes());
    // Another octet that announces the ticket.
    let mut bytes = blob.to_bytes();
    let at = bytes.len() - 4 - blob.mat.as_ref().unwrap().len() - 1;
    assert_eq!(bytes[at], 1);
    bytes[at] = 9;
    let read = SessionConfigBlob::from_bytes(&bytes).ok().unwrap();
    assert!(read.to_bytes() == blob.to_bytes());
}
