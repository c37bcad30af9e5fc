use mega_mailer::cfg::StorageCfg;
use mega_mailer::importance::ImportanceChecker;
use mega_mailer::sessions::WebAppUser;
use mega_mailer::storage::{
    AttachRequest, Cipher, LoginRequest, MailAccount, MailAccountEncrypted, User,
};

fn storage_cfg(key: &str, iv: &str) -> StorageCfg {
    StorageCfg {
        redis: String::from("localhost:6379"),
        postgres: String::from("localhost:5432"),
        key: String::from(key),
        iv: String::from(iv),
    }
}

fn cipher() -> Cipher {
    Cipher::new(&storage_cfg("0123456789abcdef", "fedcba9876543210"))
}

#[test]
fn cipher_usability_depends_on_key_lengths() {
    assert!(cipher().is_usable());
    assert!(!Cipher::new(&storage_cfg("short", "fedcba9876543210")).is_usable());
    assert!(!Cipher::new(&storage_cfg("0123456789abcdef", "bad")).is_usable());
}

#[test]
fn cipher_round_trips_and_actually_encrypts() {
    let c = cipher();
    let plain = b"correct horse battery staple";
    let enc = c.encrypt(plain);
    assert_ne!(enc.as_slice(), plain.as_slice());
    assert!(enc.len() > plain.len());
    assert_eq!(c.try_decrypt(&enc), Some(plain.to_vec()));
    assert_eq!(c.decrypt(&enc), plain.to_vec());
}

#[test]
fn cipher_rejects_malformed_ciphertext() {
    let c = cipher();
    // Not a whole number of blocks.
    assert_eq!(c.try_decrypt(&[1, 2, 3]), None);
    // A whole block, but with effectively random padding byte: decrypting a
    // block of zeroes under this key yields no valid PKCS#7 padding.
    assert_eq!(c.try_decrypt(&[0u8; 16]), None);
}

#[test]
fn mail_account_round_trips_through_encryption() {
    let c = cipher();
    let account = MailAccount {
        email: String::from("user@example.com"),
        password: String::from("hunter2"),
    };
    let enc = account.encrypt(&c);
    assert_eq!(enc.email, "user@example.com");
    assert_ne!(enc.password.as_slice(), b"hunter2".as_slice());
    let back = enc.try_decrypt(&c).unwrap();
    assert_eq!(back.email, "user@example.com");
    assert_eq!(back.password, "hunter2");
}

#[test]
fn mail_account_decrypt_rejects_garbage() {
    let c = cipher();
    let enc = MailAccountEncrypted { email: String::from("u@e"), password: vec![9, 9, 9] };
    assert!(enc.try_decrypt(&c).is_none());
}

#[test]
fn attach_request_carries_username_and_expiry() {
    let username = String::from("alice");
    let r = AttachRequest::new(&username);
    assert_eq!(r.username, "alice");
    let code: u32 = r.code.parse().expect("six-digit code");
    assert!((100000..999999).contains(&code));
    assert!(r.is_valid());
    assert!(r.is_valid_at(r.expires - 1));
    assert!(!r.is_valid_at(r.expires));
}

#[test]
fn login_request_carries_username_and_expiry() {
    let username = String::from("bob");
    let r = LoginRequest::new(&username);
    assert_eq!(r.username, "bob");
    let code: u32 = r.code.parse().expect("six-digit code");
    assert!((100000..999999).contains(&code));
    assert!(r.is_valid());
    assert!(!r.is_valid_at(i64::MAX));
}

#[test]
fn importance_checker_matches_listed_address() {
    let checker = ImportanceChecker::new(
        vec![String::from("boss@corp.com"), String::from("alerts@corp.com")],
        vec![],
    );
    assert!(checker.check(&String::from("boss@corp.com"), &String::from("lunch")));
    assert!(!checker.check(&String::from("spam@corp.com"), &String::from("lunch")));
}

#[test]
fn importance_checker_matches_tag_inside_subject() {
    let checker = ImportanceChecker::new(vec![], vec![String::from("URGENT"), String::from("pay")]);
    assert!(checker.check(&String::from("a@b"), &String::from("please see: URGENT issue")));
    assert!(checker.check(&String::from("a@b"), &String::from("payroll")));
    assert!(!checker.check(&String::from("a@b"), &String::from("weekly digest")));
}

#[test]
fn importance_checker_with_empty_lists_flags_nothing() {
    let checker = ImportanceChecker::new(vec![], vec![]);
    assert!(!checker.check(&String::from("a@b"), &String::from("anything")));
}

#[test]
fn web_app_user_from_id() {
    let u = WebAppUser::from(42i64);
    assert_eq!(u, WebAppUser { id: 42 });
}

#[test]
fn user_clone_copies_fields() {
    let u = User { username: String::from("carol"), photo: Some(String::from("p.png")) };
    let v = u.clone();
    assert_eq!(v.username, "carol");
    assert_eq!(v.photo.as_deref(), Some("p.png"));
}
