//! End-to-end checks of the login flow against the real outside crates.

#![allow(deprecated)]

use nako::auth::{login_check, login_view, logout, LoginPage, LoginParams, LoginValidate};
use nako::entity::UserRecord;
use nako::session::SessionData;

use rsa::pkcs8::{EncodePrivateKey, LineEnding};
use rsa::{Pkcs1v15Encrypt, RsaPrivateKey, RsaPublicKey};

fn fresh_session_with_challenge(answer: &str) -> SessionData {
    let mut session = SessionData::new();
    session.set_captcha(answer.to_string());
    session
}

/// A session holding a real transport key, plus the base64 ciphertext of
/// `password` under that key.
fn session_and_ciphertext(answer: &str, password: &str) -> (SessionData, String) {
    let mut rng = rand::thread_rng();
    let key = RsaPrivateKey::new(&mut rng, 1024).expect("keygen");
    let pri_pem = key.to_pkcs8_pem(LineEnding::LF).expect("pem").to_string();
    let cipher = RsaPublicKey::from(&key)
        .encrypt(&mut rng, Pkcs1v15Encrypt, password.as_bytes())
        .expect("encrypt");
    let mut session = fresh_session_with_challenge(answer);
    session.set_auth_key(pri_pem);
    (session, base64::encode(cipher))
}

fn stored_user(password: &str, status: i32) -> UserRecord {
    UserRecord {
        id: 7,
        name: "admin".to_string(),
        password: Some(format!("{:x}", md5::compute(password.as_bytes()))),
        status: Some(status),
    }
}

#[test]
fn login_succeeds_with_case_insensitive_challenge() {
    let (mut session, ciphertext) = session_and_ciphertext("A1B2", "secret-pass");
    let user = stored_user("secret-pass", 1);
    let params = LoginParams {
        name: "admin".to_string(),
        password: ciphertext,
        captcha: "a1b2".to_string(),
    };
    let r = login_check(&mut session, &params, Some(&user));
    assert!(r.success);
    assert_eq!(r.message, "登陆成功");
    assert_eq!(session.login_id, Some(7));
    assert!(session.auth_key.is_none());
    assert_eq!(session.captcha.as_deref(), Some("A1B2"));
}

#[test]
fn login_rejects_mismatched_challenge_despite_correct_credentials() {
    let (mut session, ciphertext) = session_and_ciphertext("A1B2", "secret-pass");
    let user = stored_user("secret-pass", 1);
    let params = LoginParams {
        name: "admin".to_string(),
        password: ciphertext,
        captcha: "WXYZ".to_string(),
    };
    let r = login_check(&mut session, &params, Some(&user));
    assert!(!r.success);
    assert_eq!(r.message, "验证码错误");
    assert!(session.login_id.is_none());
    assert!(session.auth_key.is_some());
}

#[test]
fn login_rejects_disabled_account_with_correct_password() {
    let (mut session, ciphertext) = session_and_ciphertext("A1B2", "secret-pass");
    let user = stored_user("secret-pass", 0);
    let params = LoginParams {
        name: "admin".to_string(),
        password: ciphertext,
        captcha: "A1B2".to_string(),
    };
    let r = login_check(&mut session, &params, Some(&user));
    assert!(!r.success);
    assert_eq!(r.message, "账号不存在或者已被禁用");
    assert!(session.login_id.is_none());
}

#[test]
fn login_rejects_when_already_authenticated_before_any_other_check() {
    let (mut session, ciphertext) = session_and_ciphertext("A1B2", "secret-pass");
    session.set_login_id(3);
    let user = stored_user("secret-pass", 1);
    let params = LoginParams {
        name: "admin".to_string(),
        password: ciphertext,
        captcha: "WXYZ".to_string(),
    };
    let r = login_check(&mut session, &params, Some(&user));
    assert!(!r.success);
    assert_eq!(r.message, "你已经登陆了");
    assert_eq!(session.login_id, Some(3));
}

#[test]
fn decryption_failure_collapses_to_generic_credentials_message() {
    let (mut session, _) = session_and_ciphertext("A1B2", "secret-pass");
    let user = stored_user("secret-pass", 1);
    let params = LoginParams {
        name: "admin".to_string(),
        // Valid base64, but not a ciphertext under the session key.
        password: base64::encode([1u8, 2, 3, 4]),
        captcha: "A1B2".to_string(),
    };
    let r = login_check(&mut session, &params, Some(&user));
    assert!(!r.success);
    assert_eq!(r.message, "账号或者密码错误");
}

#[test]
fn wrong_password_and_unknown_account_share_one_message() {
    let (mut session, ciphertext) = session_and_ciphertext("A1B2", "other-pass");
    let user = stored_user("secret-pass", 1);
    let params = LoginParams {
        name: "admin".to_string(),
        password: ciphertext.clone(),
        captcha: "A1B2".to_string(),
    };
    let wrong = login_check(&mut session, &params, Some(&user));
    assert!(!wrong.success);
    assert_eq!(wrong.message, "账号或者密码错误");

    let (mut session2, ciphertext2) = session_and_ciphertext("A1B2", "secret-pass");
    let params2 = LoginParams {
        name: "nobody".to_string(),
        password: ciphertext2,
        captcha: "A1B2".to_string(),
    };
    let missing = login_check(&mut session2, &params2, None);
    assert!(!missing.success);
    assert_eq!(missing.message, "账号或者密码错误");
}

#[test]
fn validation_messages_come_field_by_field() {
    let empty_name = LoginValidate {
        name: Some(String::new()),
        password: Some("x".to_string()),
        captcha: Some("A1B2".to_string()),
    };
    assert_eq!(empty_name.validate().unwrap_err(), "账号不能为空");

    let no_password = LoginValidate {
        name: Some("admin".to_string()),
        password: None,
        captcha: Some("A1B2".to_string()),
    };
    assert_eq!(no_password.validate().unwrap_err(), "密码不能为空");

    let no_captcha = LoginValidate {
        name: Some("admin".to_string()),
        password: Some("x".to_string()),
        captcha: None,
    };
    assert_eq!(no_captcha.validate().unwrap_err(), "验证码不能为空");

    // A present but empty answer falls under the length rule, as a
    // too-short one does.
    let empty_captcha = LoginValidate {
        name: Some("admin".to_string()),
        password: Some("x".to_string()),
        captcha: Some(String::new()),
    };
    assert_eq!(empty_captcha.validate().unwrap_err(), "验证码位数错误");

    let short_captcha = LoginValidate {
        name: Some("admin".to_string()),
        password: Some("x".to_string()),
        captcha: Some("A1B".to_string()),
    };
    assert_eq!(short_captcha.validate().unwrap_err(), "验证码位数错误");
}

#[test]
fn short_challenge_answer_is_rejected_by_login_check() {
    let (mut session, ciphertext) = session_and_ciphertext("A1B2", "secret-pass");
    let user = stored_user("secret-pass", 1);
    let params = LoginParams {
        name: "admin".to_string(),
        password: ciphertext,
        captcha: "a1".to_string(),
    };
    let r = login_check(&mut session, &params, Some(&user));
    assert!(!r.success);
    assert_eq!(r.message, "验证码位数错误");
}

#[test]
fn login_view_binds_private_key_and_strips_public_pem() {
    let mut session = SessionData::new();
    let keys = Some((
        "PRIVATE-TEXT".to_string(),
        "-----BEGIN PUBLIC KEY-----\nAB CD\r\nEF\n-----END PUBLIC KEY-----\n".to_string(),
    ));
    match login_view(&mut session, keys) {
        LoginPage::Page { pub_key } => assert_eq!(pub_key.as_deref(), Some("ABCDEF")),
        LoginPage::Redirect(_) => panic!("expected the page"),
    }
    assert_eq!(session.auth_key.as_deref(), Some("PRIVATE-TEXT"));
}

#[test]
fn login_view_redirects_when_already_authenticated() {
    let mut session = SessionData::new();
    session.set_login_id(5);
    match login_view(&mut session, None) {
        LoginPage::Redirect(p) => assert_eq!(p, "/admin/index"),
        LoginPage::Page { .. } => panic!("expected a redirect"),
    }
    assert_eq!(session.login_id, Some(5));
}

#[test]
fn login_page_serves_a_stripped_key_end_to_end() {
    let mut session = SessionData::new();
    match nako::auth::login(&mut session) {
        LoginPage::Page { pub_key } => {
            let body = pub_key.expect("a drawn keypair");
            assert!(!body.is_empty());
            assert!(!body.contains('-'));
            assert!(!body.contains('\n'));
            assert!(session.auth_key.is_some());
        },
        LoginPage::Redirect(_) => panic!("expected the page"),
    }
}

#[test]
fn a_store_failure_reply_does_not_count_as_a_login() {
    let r = nako::auth::login_store_failed();
    assert!(!r.success);
    assert_eq!(r.message, "登陆失败");
}

#[test]
fn logout_clears_identity_and_redirects() {
    let mut session = SessionData::new();
    session.set_login_id(9);
    session.set_captcha("A1B2".to_string());
    let target = logout(&mut session);
    assert_eq!(target, "/admin/auth/login");
    assert!(session.login_id.is_none());
    assert_eq!(session.captcha.as_deref(), Some("A1B2"));
}

#[test]
fn logout_when_not_logged_in_is_a_noop_that_still_redirects() {
    let mut session = SessionData::new();
    session.set_auth_key("K".to_string());
    let target = logout(&mut session);
    assert_eq!(target, "/admin/auth/login");
    assert!(session.login_id.is_none());
    assert_eq!(session.auth_key.as_deref(), Some("K"));
}
