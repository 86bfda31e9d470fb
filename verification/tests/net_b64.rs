use island_app::b64::{decode, encode};
use island_app::net::url_encode;

#[test]
fn url_encode_keeps_unreserved_and_percent_encodes_utf8() {
    assert_eq!(url_encode("a b"), "a%20b", "空格应编码为 %20");
    assert_eq!(url_encode("歌"), "%E6%AD%8C", "中文应按 UTF-8 逐字节编码，错了搜索词会乱码");
    assert_eq!(url_encode("a-b_c.!~*'()"), "a-b_c.!~*'()", "非保留字符不应编码");
}

#[test]
fn url_encode_escapes_reserved_characters() {
    assert_eq!(url_encode("a&b=c/d?"), "a%26b%3Dc%2Fd%3F");
    assert_eq!(url_encode(""), "");
}

#[test]
fn base64_round_trips() {
    for data in [&b""[..], b"f", b"fo", b"foo", b"foob", b"fooba", b"foobar", &[0, 255, 128, 7]] {
        assert_eq!(decode(&encode(data)), data.to_vec(), "{data:?}");
    }
    assert_eq!(encode(b"foobar"), "Zm9vYmFy");
    assert_eq!(encode(b"fo"), "Zm8=");
}

#[test]
fn base64_decode_is_lenient() {
    assert_eq!(decode("Zm9v\nYmFy"), b"foobar".to_vec(), "换行等杂字符跳过");
    assert_eq!(decode("Zm8"), b"fo".to_vec(), "缺填充也能解");
}

fn percent_decode(s: &str) -> Vec<u8> {
    let b = s.as_bytes();
    let mut out = Vec::new();
    let mut i = 0;
    while i < b.len() {
        if b[i] == b'%' && i + 2 < b.len() {
            let hex = std::str::from_utf8(&b[i + 1..i + 3]).unwrap();
            if let Ok(v) = u8::from_str_radix(hex, 16) {
                out.push(v);
                i += 3;
                continue;
            }
        }
        out.push(b[i]);
        i += 1;
    }
    out
}

#[test]
fn url_encode_output_decodes_to_the_utf8_bytes() {
    for s in ["", "a b", "周杰伦 - 晴天", "100% & more/?=#", "%41", "a-b_c.!~*'()", "\u{1F600}"] {
        let e = url_encode(s);
        assert!(e.chars().all(|c| c == '%' || c.is_ascii_alphanumeric() || "-_.!~*'()".contains(c)), "{e}");
        assert_eq!(percent_decode(&e), s.as_bytes(), "{s}");
    }
}
