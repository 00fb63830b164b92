use meshtouch_relay::api::{
    is_hex_encoded, register_key, register_key_done, ApiError, NewUser, RegisterRequest, STATUS_BAD_REQUEST,
    STATUS_INTERNAL_SERVER_ERROR,
};

fn request(key: &str) -> RegisterRequest {
    RegisterRequest {
        public_key: key.to_string(),
        fingerprint: "AB:CD:EF".to_string(),
        alias: Some("alice".to_string()),
    }
}

fn is_hyphenated_uuid_v4(s: &str) -> bool {
    let chars: Vec<char> = s.chars().collect();
    chars.len() == 36
        && chars.iter().enumerate().all(|(i, c)| {
            if [8, 13, 18, 23].contains(&i) {
                *c == '-'
            } else {
                c.is_ascii_digit() || ('a'..='f').contains(c)
            }
        })
        && chars[14] == '4'
        && ['8', '9', 'a', 'b'].contains(&chars[19])
}

#[test]
fn short_public_key_is_refused() {
    let r = register_key(request(&"a".repeat(31)));
    assert_eq!(
        r,
        Err(ApiError { status: STATUS_BAD_REQUEST, message: "Invalid public key".to_string() })
    );
}

#[test]
fn empty_public_key_is_refused() {
    let r = register_key(request(""));
    assert_eq!(r.unwrap_err().status, 400);
}

#[test]
fn public_key_of_32_bytes_is_accepted() {
    let key = "0123456789abcdef0123456789abcdef";
    let user = register_key(request(key)).unwrap();
    assert_eq!(user.public_key, key);
    assert_eq!(user.fingerprint, "AB:CD:EF");
    assert_eq!(user.alias, Some("alice".to_string()));
    assert!(is_hyphenated_uuid_v4(&user.recipient_id));
}

#[test]
fn public_key_must_be_hex() {
    // 16 two-byte characters: 32 bytes, but not hex.
    let r = register_key(request(&"é".repeat(16)));
    assert_eq!(
        r,
        Err(ApiError { status: STATUS_BAD_REQUEST, message: "Invalid public key".to_string() })
    );
    // 32 bytes with one character outside the hex digits.
    let mut key = "0".repeat(31);
    key.push('g');
    assert_eq!(register_key(request(&key)).unwrap_err().status, 400);
    let mut key = "0".repeat(40);
    key.insert(10, ' ');
    assert_eq!(register_key(request(&key)).unwrap_err().status, 400);
}

#[test]
fn uppercase_hex_key_is_accepted() {
    let key = "0123456789ABCDEFabcdef0123456789";
    assert!(register_key(request(key)).is_ok());
}

#[test]
fn hex_check_on_text() {
    assert!(is_hex_encoded(""));
    assert!(is_hex_encoded("09afAF"));
    assert!(!is_hex_encoded("09afAFg"));
    assert!(!is_hex_encoded("é"));
    assert!(!is_hex_encoded("0x12"));
}

#[test]
fn registration_without_alias_keeps_none() {
    let mut req = request(&"f".repeat(64));
    req.alias = None;
    let user = register_key(req).unwrap();
    assert_eq!(user.alias, None);
}

#[test]
fn each_registration_draws_a_new_id() {
    let a = register_key(request(&"c".repeat(40))).unwrap();
    let b = register_key(request(&"c".repeat(40))).unwrap();
    assert_ne!(a.recipient_id, b.recipient_id);
}

fn new_user() -> NewUser {
    NewUser {
        recipient_id: "11111111-2222-4333-8444-555555555555".to_string(),
        public_key: "c".repeat(32),
        fingerprint: "FP".to_string(),
        alias: None,
    }
}

#[test]
fn stored_registration_answers_id_and_fingerprint() {
    let resp = register_key_done(new_user(), Ok(())).unwrap();
    assert_eq!(resp.recipient_id, "11111111-2222-4333-8444-555555555555");
    assert_eq!(resp.fingerprint, "FP");
}

#[test]
fn failed_registration_is_internal_error() {
    let r = register_key_done(new_user(), Err("UNIQUE constraint failed".to_string()));
    assert_eq!(
        r,
        Err(ApiError {
            status: STATUS_INTERNAL_SERVER_ERROR,
            message: "UNIQUE constraint failed".to_string()
        })
    );
}
