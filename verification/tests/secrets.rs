use base64::engine::general_purpose::STANDARD;
use base64::Engine;
use kiosk_desktop::path::DesktopPath;
use kiosk_desktop::secrets::{
    encode_payment_key, is_key_decoded, is_valid_base64_256_key, jwt_path, password_from_env,
    password_path, payment_key_from_env, payment_key_from_file, payment_key_path, secret_from_env,
    secret_from_file, EnvSecret, FileSecret, JWT_SECRET_LEN, PASSWORD_LEN,
};

fn text(s: &str) -> Option<String> {
    Some(s.to_string())
}

fn kept(s: FileSecret) -> String {
    match s {
        FileSecret::Keep(s) => s,
        FileSecret::Use(s) => panic!("used {}", s),
    }
}

#[test]
fn any_password_of_the_environment_counts() {
    assert_eq!(password_from_env(text(" p ")), EnvSecret::Use(" p ".to_string()));
    assert_eq!(password_from_env(text("")), EnvSecret::Use(String::new()));
    assert_eq!(password_from_env(None), EnvSecret::AskFile);
}

#[test]
fn an_empty_key_of_the_environment_does_not_count() {
    assert_eq!(secret_from_env(text("k")), EnvSecret::Use("k".to_string()));
    assert_eq!(secret_from_env(text("")), EnvSecret::AskFile);
    assert_eq!(secret_from_env(None), EnvSecret::AskFile);
}

#[test]
fn a_file_gives_its_secret_without_white_space() {
    assert_eq!(secret_from_file(text(" pw\n"), 32), FileSecret::Use("pw".to_string()));
    assert_eq!(secret_from_file(text("\n"), 32), FileSecret::Use(String::new()));
}

#[test]
fn a_new_secret_is_random_text() {
    for len in [0, 1, PASSWORD_LEN, JWT_SECRET_LEN] {
        let s = kept(secret_from_file(None, len));
        assert_eq!(s.len(), len);
        assert!(s.chars().all(|c| c.is_ascii_alphanumeric()));
    }
    assert_ne!(kept(secret_from_file(None, 64)), kept(secret_from_file(None, 64)));
}

#[test]
fn a_kept_secret_is_read_back() {
    let s = kept(secret_from_file(None, 64));
    assert_eq!(secret_from_file(Some(s.clone()), 64), FileSecret::Use(s));
}

#[test]
fn a_payment_key_is_base64_of_32_bytes() {
    let good = STANDARD.encode([7u8; 32]);
    assert!(is_valid_base64_256_key(&good));
    assert!(is_valid_base64_256_key(&format!(" {}\n", good)));
    for bad in [
        String::new(),
        "   ".to_string(),
        "not base64!".to_string(),
        STANDARD.encode([7u8; 31]),
        STANDARD.encode([7u8; 33]),
        "a".repeat(64),
        good.trim_end_matches('=').to_string(),
    ] {
        assert!(!is_valid_base64_256_key(&bad), "{:?}", bad);
    }
    assert!(is_key_decoded("x", Some(vec![0; 32])));
    assert!(!is_key_decoded("x", Some(vec![0; 31])));
    assert!(!is_key_decoded("", Some(vec![0; 32])));
    assert!(!is_key_decoded("x", None));
}

#[test]
fn a_payment_key_is_encoded_as_base64() {
    let mut key = [0u8; 32];
    for (i, b) in key.iter_mut().enumerate() {
        *b = i as u8;
    }
    assert_eq!(encode_payment_key(&key), "AAECAwQFBgcICQoLDA0ODxAREhMUFRYXGBkaGxwdHh8=");
}

#[test]
fn a_valid_payment_key_of_the_environment_counts() {
    let good = STANDARD.encode([9u8; 32]);
    assert_eq!(payment_key_from_env(Some(format!("{} ", good))), EnvSecret::Use(good));
    assert_eq!(payment_key_from_env(text("nonsense")), EnvSecret::AskFile);
    assert_eq!(payment_key_from_env(None), EnvSecret::AskFile);
}

#[test]
fn a_bad_payment_key_is_replaced() {
    let good = STANDARD.encode([9u8; 32]);
    assert_eq!(payment_key_from_file(Some(format!("{}\n", good))), FileSecret::Use(good));
    for contents in [None, text(""), text("alphanumeric0123456789alphanumeric")] {
        let key = kept(payment_key_from_file(contents));
        assert_eq!(STANDARD.decode(&key).map(|b| b.len()), Ok(32));
        assert_eq!(payment_key_from_file(Some(key.clone())), FileSecret::Use(key));
    }
    assert_ne!(kept(payment_key_from_file(None)), kept(payment_key_from_file(None)));
}

#[test]
fn secrets_have_their_files() {
    let d = DesktopPath::text("/d");
    assert_eq!(password_path(&d).parts, ["db_password"]);
    assert_eq!(jwt_path(&d).parts, ["conf", "jwt.key"]);
    assert_eq!(payment_key_path(&d).parts, ["conf", "payment.key"]);
}
