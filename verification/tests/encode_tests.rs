use inline_images::encode::{bytes_to_base64, format_data_uri};

fn encode(bytes: &[u8], media_type: &str) -> Option<String> {
    bytes_to_base64(Some((bytes.to_vec(), media_type.to_owned())))
}

fn decode(payload: &str) -> Vec<u8> {
    base64::Engine::decode(&base64::engine::general_purpose::STANDARD, payload).unwrap()
}

#[test]
fn absent_resource_gives_no_replacement() {
    assert_eq!(bytes_to_base64(None), None);
}

#[test]
fn png_signature_is_encoded() {
    assert_eq!(
        encode(&[0x89, 0x50, 0x4E, 0x47], "image/png"),
        Some("data:image/png;base64,iVBORw==".to_owned())
    );
}

#[test]
fn empty_file_gives_empty_payload() {
    assert_eq!(encode(&[], "image/png"), Some("data:image/png;base64,".to_owned()));
}

#[test]
fn padding_follows_the_length() {
    assert_eq!(encode(b"f", "text/plain"), Some("data:text/plain;base64,Zg==".to_owned()));
    assert_eq!(encode(b"fo", "text/plain"), Some("data:text/plain;base64,Zm8=".to_owned()));
    assert_eq!(encode(b"foo", "text/plain"), Some("data:text/plain;base64,Zm9v".to_owned()));
    assert_eq!(encode(b"foob", "text/plain"), Some("data:text/plain;base64,Zm9vYg==".to_owned()));
    assert_eq!(encode(b"fooba", "text/plain"), Some("data:text/plain;base64,Zm9vYmE=".to_owned()));
    assert_eq!(encode(b"foobar", "text/plain"), Some("data:text/plain;base64,Zm9vYmFy".to_owned()));
}

#[test]
fn standard_alphabet_is_used() {
    assert_eq!(encode(&[0xfb, 0xff], "image/gif"), Some("data:image/gif;base64,+/8=".to_owned()));
    assert_eq!(encode(&[0xff, 0xff, 0xff], "image/gif"), Some("data:image/gif;base64,////".to_owned()));
    assert_eq!(encode(&[0x00, 0x00, 0x00], "image/gif"), Some("data:image/gif;base64,AAAA".to_owned()));
    assert_eq!(encode(&[0xfb, 0xef, 0xbe], "image/gif"), Some("data:image/gif;base64,++++".to_owned()));
}

#[test]
fn every_sextet_has_its_character() {
    let mut bytes = Vec::new();
    let mut group = 0u32;
    while group < 16 {
        let s = group * 4;
        let word = (s << 18) | ((s + 1) << 12) | ((s + 2) << 6) | (s + 3);
        bytes.push((word >> 16) as u8);
        bytes.push((word >> 8) as u8);
        bytes.push(word as u8);
        group += 1;
    }
    assert_eq!(
        encode(&bytes, "a/b"),
        Some("data:a/b;base64,ABCDEFGHIJKLMNOPQRSTUVWXYZabcdefghijklmnopqrstuvwxyz0123456789+/".to_owned())
    );
}

#[test]
fn media_type_is_written_as_given() {
    assert_eq!(encode(b"<svg/>", "image/svg+xml"), Some("data:image/svg+xml;base64,PHN2Zy8+".to_owned()));
}

#[test]
fn data_uri_is_put_together() {
    assert_eq!(format_data_uri("image/png", "iVBORw=="), "data:image/png;base64,iVBORw==");
    assert_eq!(format_data_uri("", ""), "data:;base64,");
}

#[test]
fn payload_decodes_to_the_bytes() {
    let mut bytes: Vec<u8> = Vec::new();
    let mut n: usize = 0;
    while n <= 300 {
        let uri = encode(&bytes, "image/png").unwrap();
        let rest = uri.strip_prefix("data:").unwrap();
        let (media_type, payload) = rest.split_once(";base64,").unwrap();
        assert_eq!(media_type, "image/png");
        assert_eq!(payload.len(), 4 * ((n + 2) / 3));
        assert_eq!(decode(payload), bytes);
        bytes.push((n * 37 + 11) as u8);
        n += 1;
    }
}

#[test]
fn all_byte_values_survive() {
    let bytes: Vec<u8> = (0..=255u8).collect();
    let uri = encode(&bytes, "application/octet-stream").unwrap();
    let payload = uri.strip_prefix("data:application/octet-stream;base64,").unwrap();
    assert_eq!(decode(payload), bytes);
}

#[test]
fn encoding_twice_gives_the_same_text() {
    let first = encode(&[1, 2, 3, 4, 5], "image/png");
    let second = encode(&[1, 2, 3, 4, 5], "image/png");
    assert_eq!(first, second);
}
