use base64::engine::general_purpose::STANDARD;
use base64::Engine;
use cogere::auth::basic::{encoded_payload, split_credentials, MachineCredentials};
use cogere::models::id::Uuid;

const KEY_ID: u128 = 0x11111111_1111_1111_1111_111111111111;

fn header(payload: &[u8]) -> Vec<u8> {
    let mut header = b"Basic ".to_vec();
    header.extend_from_slice(STANDARD.encode(payload).as_bytes());
    header
}

#[test]
fn header_with_key_id_and_secret_is_read() {
    let read = MachineCredentials::from_header(
        b"Basic MTExMTExMTEtMTExMS0xMTExLTExMTEtMTExMTExMTExMTExOnMzY3JldA==",
    );
    let expected = MachineCredentials { id: Uuid::from_u128(KEY_ID), secret: b"s3cret".to_vec() };
    assert!(read == Some(expected));
}

#[test]
fn header_built_by_the_encoder_is_read() {
    let read =
        MachineCredentials::from_header(&header(b"67e55044-10b1-426f-9247-bb680e5fe0c8:open sesame"));
    let expected = MachineCredentials {
        id: Uuid::from_u128(0x67e55044_10b1_426f_9247_bb680e5fe0c8),
        secret: b"open sesame".to_vec(),
    };
    assert!(read == Some(expected));
}

#[test]
fn secret_is_everything_after_the_first_colon() {
    let read = MachineCredentials::from_header(&header(
        b"11111111-1111-1111-1111-111111111111:a:b:c",
    ));
    assert!(read == Some(MachineCredentials { id: Uuid::from_u128(KEY_ID), secret: b"a:b:c".to_vec() }));
}

#[test]
fn secret_may_be_empty() {
    let read = MachineCredentials::from_header(&header(b"11111111-1111-1111-1111-111111111111:"));
    assert!(read == Some(MachineCredentials { id: Uuid::from_u128(KEY_ID), secret: Vec::new() }));
}

#[test]
fn secret_keeps_bytes_beyond_ascii() {
    let read = MachineCredentials::from_header(&header(
        "11111111-1111-1111-1111-111111111111:schlüssel".as_bytes(),
    ));
    assert!(
        read
            == Some(MachineCredentials {
                id: Uuid::from_u128(KEY_ID),
                secret: "schlüssel".as_bytes().to_vec(),
            })
    );
}

#[test]
fn key_id_may_be_written_in_upper_case_without_hyphens_or_in_braces() {
    let upper = MachineCredentials::from_header(&header(b"67E55044-10B1-426F-9247-BB680E5FE0C8:x"));
    let simple = MachineCredentials::from_header(&header(b"11111111111111111111111111111111:x"));
    let braced =
        MachineCredentials::from_header(&header(b"{11111111-1111-1111-1111-111111111111}:x"));
    assert!(
        upper
            == Some(MachineCredentials {
                id: Uuid::from_u128(0x67e55044_10b1_426f_9247_bb680e5fe0c8),
                secret: b"x".to_vec(),
            })
    );
    assert!(simple == Some(MachineCredentials { id: Uuid::from_u128(KEY_ID), secret: b"x".to_vec() }));
    assert!(braced == Some(MachineCredentials { id: Uuid::from_u128(KEY_ID), secret: b"x".to_vec() }));
}

#[test]
fn header_without_the_scheme_carries_nothing() {
    let encoded = "MTExMTExMTEtMTExMS0xMTExLTExMTEtMTExMTExMTExMTExOnMzY3JldA==";
    assert!(MachineCredentials::from_header(encoded.as_bytes()).is_none());
    assert!(MachineCredentials::from_header(format!("Bearer {}", encoded).as_bytes()).is_none());
    assert!(MachineCredentials::from_header(format!("basic {}", encoded).as_bytes()).is_none());
    assert!(MachineCredentials::from_header(format!("BASIC {}", encoded).as_bytes()).is_none());
    assert!(MachineCredentials::from_header(format!("Basic{}", encoded).as_bytes()).is_none());
    assert!(MachineCredentials::from_header(format!(" Basic {}", encoded).as_bytes()).is_none());
}

#[test]
fn short_and_empty_headers_carry_nothing() {
    assert!(MachineCredentials::from_header(b"").is_none());
    assert!(MachineCredentials::from_header(b"Basic").is_none());
    assert!(MachineCredentials::from_header(b"Basic ").is_none());
    assert!(MachineCredentials::from_header(b"Basi").is_none());
}

#[test]
fn payload_that_is_no_base64_carries_nothing() {
    assert!(MachineCredentials::from_header(b"Basic !!!not base64!!!").is_none());
    assert!(
        MachineCredentials::from_header(
            b"Basic MTExMTExMTEtMTExMS0xMTExLTExMTEtMTExMTExMTExMTExOnMzY3JldA"
        )
        .is_none()
    );
    assert!(
        MachineCredentials::from_header(
            b"Basic  MTExMTExMTEtMTExMS0xMTExLTExMTEtMTExMTExMTExMTExOnMzY3JldA=="
        )
        .is_none()
    );
    assert!(
        MachineCredentials::from_header(
            b"Basic MTExMTExMTEtMTExMS0xMTExLTExMTEtMTExMTExMTExMTExOnMzY3JldA==\n"
        )
        .is_none()
    );
}

#[test]
fn payload_in_the_url_alphabet_carries_nothing() {
    assert!(MachineCredentials::from_header(b"Basic __46czNjcmV0").is_none());
}

#[test]
fn payload_that_is_no_utf8_carries_nothing() {
    assert!(MachineCredentials::from_header(&header(b"\xff\xfe:s3cret")).is_none());
    assert!(
        MachineCredentials::from_header(&header(b"11111111-1111-1111-1111-111111111111:\xff"))
            .is_none()
    );
}

#[test]
fn payload_without_colon_carries_nothing() {
    assert!(
        MachineCredentials::from_header(&header(b"11111111-1111-1111-1111-111111111111")).is_none()
    );
    assert!(MachineCredentials::from_header(&header(b"")).is_none());
}

#[test]
fn name_that_is_no_identifier_carries_nothing() {
    assert!(MachineCredentials::from_header(&header(b"not-a-uuid:s3cret")).is_none());
    assert!(MachineCredentials::from_header(&header(b":s3cret")).is_none());
    assert!(
        MachineCredentials::from_header(&header(b"11111111-1111-1111-1111-11111111111:s3cret"))
            .is_none()
    );
    assert!(
        MachineCredentials::from_header(&header(b" 11111111-1111-1111-1111-111111111111:s3cret"))
            .is_none()
    );
}

#[test]
fn identifier_in_urn_form_is_cut_at_its_own_colon() {
    assert!(
        MachineCredentials::from_header(&header(
            b"urn:uuid:11111111-1111-1111-1111-111111111111:s3cret"
        ))
        .is_none()
    );
}

#[test]
fn payload_is_what_follows_the_scheme() {
    assert_eq!(encoded_payload(b"Basic abc"), Some(b"abc".as_slice()));
    assert_eq!(encoded_payload(b"Basic "), Some(b"".as_slice()));
    assert_eq!(encoded_payload(b"Basic  abc"), Some(b" abc".as_slice()));
    assert_eq!(encoded_payload(b"Basic Basic x"), Some(b"Basic x".as_slice()));
}

#[test]
fn header_with_another_scheme_has_no_payload() {
    assert_eq!(encoded_payload(b""), None);
    assert_eq!(encoded_payload(b"Basic"), None);
    assert_eq!(encoded_payload(b"basic abc"), None);
    assert_eq!(encoded_payload(b"Basic\tabc"), None);
    assert_eq!(encoded_payload(b"Bearer abc"), None);
    assert_eq!(encoded_payload(b"Digest abc"), None);
    assert_eq!(encoded_payload(b"Basix abc"), None);
}

#[test]
fn credentials_are_parted_at_the_first_colon() {
    assert_eq!(split_credentials(b"name:secret"), Some((b"name".as_slice(), b"secret".as_slice())));
    assert_eq!(split_credentials(b"a:b:c"), Some((b"a".as_slice(), b"b:c".as_slice())));
    assert_eq!(split_credentials(b":"), Some((b"".as_slice(), b"".as_slice())));
    assert_eq!(split_credentials(b"::"), Some((b"".as_slice(), b":".as_slice())));
    assert_eq!(split_credentials(b"name:"), Some((b"name".as_slice(), b"".as_slice())));
    assert_eq!(
        split_credentials("nämé:sécrét".as_bytes()),
        Some(("nämé".as_bytes(), "sécrét".as_bytes()))
    );
}

#[test]
fn credentials_without_colon_or_outside_utf8_are_not_parted() {
    assert_eq!(split_credentials(b""), None);
    assert_eq!(split_credentials(b"name"), None);
    assert_eq!(split_credentials(b"name;secret"), None);
    assert_eq!(split_credentials(b"\xff:secret"), None);
    assert_eq!(split_credentials(b"name:\xc3"), None);
    assert_eq!(split_credentials(b"name:\xed\xa0\x80"), None);
}

#[test]
fn credentials_are_made_of_an_identifier_and_a_secret() {
    let made = MachineCredentials::with_id(Some(Uuid::from_u128(KEY_ID)), b"s3cret");
    assert!(made == Some(MachineCredentials { id: Uuid::from_u128(KEY_ID), secret: b"s3cret".to_vec() }));
    assert!(MachineCredentials::with_id(None, b"s3cret").is_none());
    assert!(
        MachineCredentials::with_id(Some(Uuid::from_u128(0)), b"")
            == Some(MachineCredentials { id: Uuid::from_u128(0), secret: Vec::new() })
    );
}
