use audio_gateway::upload::{audio_field, decode_upload, UploadError};

fn pairs(ps: &[(&str, &str)]) -> Vec<(String, String)> {
    ps.iter().map(|(k, v)| (k.to_string(), v.to_string())).collect()
}

#[test]
fn decodes_base64_audio_field() {
    assert_eq!(decode_upload(b"audio=aGVsbG8=").unwrap(), b"hello".to_vec());
}

#[test]
fn decodes_percent_encoded_field() {
    assert_eq!(decode_upload(b"audio=AAEC%2F%2B8%3D").unwrap(), vec![0u8, 1, 2, 255, 239]);
}

#[test]
fn ignores_other_fields() {
    assert_eq!(decode_upload(b"name=x&audio=AQID&y=2").unwrap(), vec![1u8, 2, 3]);
}

#[test]
fn raw_bytes_are_no_form() {
    assert_eq!(decode_upload(b"\x00\x01").unwrap_err(), UploadError::FormDecode);
}

#[test]
fn missing_audio_field_is_form_error() {
    assert_eq!(decode_upload(b"sound=aGVsbG8=").unwrap_err(), UploadError::FormDecode);
    assert_eq!(decode_upload(b"").unwrap_err(), UploadError::FormDecode);
}

#[test]
fn repeated_audio_field_is_form_error() {
    assert_eq!(decode_upload(b"audio=AQID&audio=AQID").unwrap_err(), UploadError::FormDecode);
}

#[test]
fn invalid_base64_is_base64_error() {
    assert_eq!(decode_upload(b"audio=not-valid-base64!!").unwrap_err(), UploadError::Base64Decode);
}

#[test]
fn empty_audio_field_decodes_to_nothing() {
    assert_eq!(decode_upload(b"audio=").unwrap(), Vec::<u8>::new());
}

#[test]
fn audio_field_picks_the_single_value() {
    assert_eq!(audio_field(&pairs(&[("a", "1"), ("audio", "xyz")])), Some("xyz".to_string()));
    assert_eq!(audio_field(&pairs(&[("a", "1")])), None);
    assert_eq!(audio_field(&pairs(&[])), None);
    assert_eq!(audio_field(&pairs(&[("audio", "x"), ("b", "2"), ("audio", "y")])), None);
}
