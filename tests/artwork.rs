use beanal::artwork::{art_source, url_decode, ArtSource, ART_FETCH_TIMEOUT_SECS};

fn encode_all(bytes: &[u8]) -> String {
    bytes.iter().map(|b| format!("%{:02X}", b)).collect()
}

fn encode_all_lower(bytes: &[u8]) -> String {
    bytes.iter().map(|b| format!("%{:02x}", b)).collect()
}

#[test]
fn decode_plain_is_identity() {
    assert_eq!(url_decode("/home/user/Music/cover.jpg"), b"/home/user/Music/cover.jpg".to_vec());
    assert_eq!(url_decode(""), Vec::<u8>::new());
    assert_eq!(url_decode("ünïcode path"), "ünïcode path".as_bytes().to_vec());
}

#[test]
fn decode_escapes() {
    assert_eq!(url_decode("/a%20b/c%2Fd"), b"/a b/c/d".to_vec());
    assert_eq!(url_decode("%41%61%7e"), b"Aa~".to_vec());
    assert_eq!(url_decode("100%25"), b"100%".to_vec());
}

#[test]
fn decode_keeps_malformed_escapes() {
    assert_eq!(url_decode("50%"), b"50%".to_vec());
    assert_eq!(url_decode("%4"), b"%4".to_vec());
    assert_eq!(url_decode("%zz1"), b"%zz1".to_vec());
    assert_eq!(url_decode("%%41"), b"%A".to_vec());
    assert_eq!(url_decode("%4é"), "%4é".as_bytes().to_vec());
}

#[test]
fn decode_utf8_escapes_to_path_bytes() {
    assert_eq!(url_decode("%C3%A9"), "é".as_bytes().to_vec());
    assert_eq!(url_decode("/M%C3%BAsica/%E6%97%A5.png"), "/Música/日.png".as_bytes().to_vec());
    assert_eq!(url_decode("%FF"), vec![0xFF]);
}

#[test]
fn decode_round_trip_all_bytes() {
    let bytes: Vec<u8> = (0u8..=255).collect();
    assert_eq!(url_decode(&encode_all(&bytes)), bytes);
    assert_eq!(url_decode(&encode_all_lower(&bytes)), bytes);
}

#[test]
fn decode_round_trip_partial_escape() {
    let path = "/music/50% off/ça va.png";
    let encoded = path.replace('%', "%25").replace(' ', "%20").replace('ç', "%C3%a7");
    assert_eq!(url_decode(&encoded), path.as_bytes().to_vec());
}

#[test]
fn source_local_file() {
    match art_source("file:///tmp/My%20Album/caf%C3%A9.png") {
        ArtSource::LocalFile(p) => assert_eq!(p, "/tmp/My Album/café.png".as_bytes().to_vec()),
        _ => panic!("expected a local file"),
    }
}

#[test]
fn source_strips_scheme_once() {
    match art_source("file://file:///x") {
        ArtSource::LocalFile(p) => assert_eq!(p, b"file:///x".to_vec()),
        _ => panic!("expected a local file"),
    }
}

#[test]
fn source_remote() {
    match art_source("https://i.scdn.co/image/ab67") {
        ArtSource::Remote(u) => assert_eq!(u, "https://i.scdn.co/image/ab67"),
        _ => panic!("expected a remote URL"),
    }
    match art_source("http://localhost/%20") {
        ArtSource::Remote(u) => assert_eq!(u, "http://localhost/%20"),
        _ => panic!("expected a remote URL"),
    }
}

#[test]
fn source_unknown_scheme() {
    assert!(matches!(art_source("ftp://host/a.png"), ArtSource::Unsupported));
    assert!(matches!(art_source(""), ArtSource::Unsupported));
    assert!(matches!(art_source("FILE:///a"), ArtSource::Unsupported));
    assert!(matches!(art_source("file:/a"), ArtSource::Unsupported));
}

#[test]
fn fetch_timeout_is_three_seconds() {
    assert_eq!(ART_FETCH_TIMEOUT_SECS, 3);
}
