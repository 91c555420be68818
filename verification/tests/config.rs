use rdl_tray::config::{token_from_decoded, token_from_unsealed, unprotect, Config};
use rdl_tray::error::Error;

fn config(worker: Option<&str>, token_enc: Option<&str>) -> Config {
    Config {
        worker: worker.map(|s| s.to_string()),
        token_enc: token_enc.map(|s| s.to_string()),
        folder: None,
    }
}

#[test]
fn default_config_is_empty() {
    let c = Config::default();
    assert!(c.worker.is_none() && c.token_enc.is_none() && c.folder.is_none());
}

#[test]
fn worker_is_returned_when_configured() {
    let c = config(Some("https://dl.example.workers.dev"), None);
    assert_eq!(c.worker().unwrap(), "https://dl.example.workers.dev");
}

#[test]
fn missing_worker_is_a_config_error() {
    match config(None, None).worker() {
        Err(Error::Config(m)) => assert_eq!(m, "worker URL not configured"),
        other => panic!("unexpected {:?}", other),
    }
}

#[test]
fn missing_token_is_an_auth_error() {
    match config(None, None).token() {
        Err(Error::Auth(m)) => assert_eq!(m, "not authenticated"),
        other => panic!("unexpected {:?}", other),
    }
}

#[test]
fn token_is_base64_of_utf8() {
    assert_eq!(config(None, Some("aGVsbG8=")).token().unwrap(), "hello");
    assert_eq!(unprotect("c2VjcmV0LXRva2Vu").unwrap(), "secret-token");
    assert_eq!(unprotect("").unwrap(), "");
}

#[test]
fn bad_base64_is_reported() {
    match unprotect("!!!!") {
        Err(Error::Config(m)) => {
            assert_eq!(m, "invalid token encoding: Invalid symbol 33, offset 0.")
        }
        other => panic!("unexpected {:?}", other),
    }
    match unprotect("aGVsbG8") {
        Err(Error::Config(m)) => assert!(m.starts_with("invalid token encoding: ")),
        other => panic!("unexpected {:?}", other),
    }
}

#[test]
fn non_utf8_token_is_reported() {
    match unprotect("/w==") {
        Err(Error::Config(m)) => assert_eq!(
            m,
            "non-utf8 token: invalid utf-8 sequence of 1 bytes from index 0"
        ),
        other => panic!("unexpected {:?}", other),
    }
}

#[test]
fn token_from_decoded_reads_utf8() {
    assert_eq!(token_from_decoded(Ok(vec![104, 105])).unwrap(), "hi");
    match token_from_decoded(Err("Invalid padding".to_string())) {
        Err(Error::Config(m)) => assert_eq!(m, "invalid token encoding: Invalid padding"),
        other => panic!("unexpected {:?}", other),
    }
    assert!(matches!(token_from_decoded(Ok(vec![0xC3])), Err(Error::Config(_))));
}

#[test]
fn not_found_names_the_path() {
    match Config::not_found("/home/u/.config/rdl/config.json") {
        Error::Config(m) => assert_eq!(
            m,
            "config not found at /home/u/.config/rdl/config.json — run `rdl auth login` first"
        ),
        other => panic!("unexpected {:?}", other),
    }
}

#[test]
fn error_descriptions_carry_their_kind() {
    assert_eq!(Error::Config("x".to_string()).to_string(), "config: x");
    assert_eq!(Error::Auth("not authenticated".to_string()).to_string(), "auth: not authenticated");
    assert_eq!(Error::Http("503".to_string()).to_string(), "http: 503");
    assert_eq!(Error::Win32("boom".to_string()).to_string(), "win32: boom");
    let io = std::io::Error::new(std::io::ErrorKind::Other, "disk gone");
    assert_eq!(Error::Io(io).to_string(), "io: disk gone");
    let json = serde_json::from_str::<serde_json::Value>("{").unwrap_err();
    assert!(Error::Json(json).to_string().starts_with("json: "));
}

#[test]
fn sealed_token_is_the_base64_decoded_bytes() {
    assert_eq!(config(None, Some("AQID/w==")).sealed_token().unwrap(), vec![1, 2, 3, 255]);
    match config(None, None).sealed_token() {
        Err(Error::Auth(m)) => assert_eq!(m, "not authenticated"),
        other => panic!("unexpected {:?}", other),
    }
    match config(None, Some("!!!!")).sealed_token() {
        Err(Error::Config(m)) => {
            assert_eq!(m, "invalid token encoding: Invalid symbol 33, offset 0.")
        }
        other => panic!("unexpected {:?}", other),
    }
}

#[test]
fn unsealed_token_is_read_as_lossy_utf8() {
    assert_eq!(token_from_unsealed(Ok(b"tok-123".to_vec())).unwrap(), "tok-123");
    assert_eq!(token_from_unsealed(Ok(vec![0x61, 0xFF, 0x62])).unwrap(), "a\u{FFFD}b");
    match token_from_unsealed(Err("The data is invalid.".to_string())) {
        Err(Error::Config(m)) => assert_eq!(m, "DPAPI unprotect: The data is invalid."),
        other => panic!("unexpected {:?}", other),
    }
}

#[test]
fn io_and_json_errors_convert() {
    let io = std::io::Error::new(std::io::ErrorKind::NotFound, "gone");
    assert!(matches!(Error::from(io), Error::Io(_)));
    let json = serde_json::from_str::<serde_json::Value>("[").unwrap_err();
    assert!(matches!(Error::from(json), Error::Json(_)));
}
