//! The login flow: page preparation, credential checking, logout.
//!
//! A submitted login is judged in a fixed order — already-authenticated
//! guard, field validation, challenge comparison, account lookup,
//! password transport decryption and hash comparison, status check —
//! and every failure collapses to one of a few fixed user-facing
//! messages, so that no reply reveals which check failed beyond the
//! challenge/credential distinction.

use vstd::prelude::*;
use vstd::utf8::{decode_utf8, encode_utf8, valid_utf8};
use crate::challenge::{challenge_matches, spec_challenge_match, CHALLENGE_LEN};
use crate::codec::{b64_decode, b64_of, utf8_or_empty};
use crate::crypto::{generate_key_pair, pem_body, rsa_decrypt, rsa_decrypt_of, spec_pem_body};
use crate::digest::{hex_encode, md5_bytes, md5_of, spec_hex};
use crate::entity::UserRecord;
use crate::envelope::{error_envelope, success_envelope, Envelope};
use crate::routes::route_path;
use crate::session::{spec_logged_in, SessionData};
use crate::strutil::str_equal;

verus! {

/// Bits of the ephemeral transport keypair drawn for each login page.
pub const TRANSPORT_KEY_BITS: usize = 1024;

/// The submitted login form.
#[derive(Clone)]
pub struct LoginParams {
    pub name: String,
    /// Base64 text of the RSA-encrypted password.
    pub password: String,
    /// The challenge answer typed by the client.
    pub captcha: String,
}

/// The login form as validated field by field.
#[derive(Clone)]
pub struct LoginValidate {
    pub name: Option<String>,
    pub password: Option<String>,
    pub captcha: Option<String>,
}

/// The first validation failure of the form, if any: a missing or
/// empty name or password, a missing challenge answer, or a present
/// answer shorter than an issued one — the empty answer falls under
/// the length message.
pub open spec fn spec_validate_msg(v: LoginValidate) -> Option<Seq<char>> {
    if v.name is None || v.name->0@.len() == 0 {
        Some("账号不能为空"@)
    } else if v.password is None || v.password->0@.len() == 0 {
        Some("密码不能为空"@)
    } else if v.captcha is None {
        Some("验证码不能为空"@)
    } else if v.captcha->0@.len() < CHALLENGE_LEN {
        Some("验证码位数错误"@)
    } else {
        None
    }
}

impl LoginValidate {
    /// Validates the form, reporting the first failure's message.
    pub fn validate(&self) -> (r: Result<(), String>)
        ensures
            match r {
                Ok(_) => spec_validate_msg(*self) is None,
                Err(m) => spec_validate_msg(*self) == Some(m@),
            },
    {
        match &self.name {
            None => {
                return Err(String::from_str("账号不能为空"));
            },
            Some(n) => {
                if n.as_str().is_empty() {
                    return Err(String::from_str("账号不能为空"));
                }
            },
        }
        match &self.password {
            None => {
                return Err(String::from_str("密码不能为空"));
            },
            Some(p) => {
                if p.as_str().is_empty() {
                    return Err(String::from_str("密码不能为空"));
                }
            },
        }
        match &self.captcha {
            None => {
                return Err(String::from_str("验证码不能为空"));
            },
            Some(c) => {
                if c.as_str().unicode_len() < CHALLENGE_LEN {
                    return Err(String::from_str("验证码位数错误"));
                }
            },
        }
        Ok(())
    }
}

/// The validation outcome of a submitted form, every field present.
pub open spec fn spec_params_msg(p: LoginParams) -> Option<Seq<char>> {
    spec_validate_msg(
        LoginValidate { name: Some(p.name), password: Some(p.password), captcha: Some(p.captcha) },
    )
}

/// The lookup result as the specification speaks of it.
pub open spec fn spec_opt_user(u: Option<&UserRecord>) -> Option<UserRecord> {
    match u {
        Some(x) => Some(*x),
        None => None,
    }
}

/// Whether the lookup produced a real account row.
pub open spec fn spec_user_found(u: Option<UserRecord>) -> bool {
    match u {
        Some(x) => x.id > 0,
        None => false,
    }
}

/// The stored password digest of the account, empty when absent.
pub open spec fn spec_user_hash(u: Option<UserRecord>) -> Seq<char> {
    match u {
        Some(x) => match x.password {
            Some(p) => p@,
            None => Seq::empty(),
        },
        None => Seq::empty(),
    }
}

/// The status flag of the account, zero when absent.
pub open spec fn spec_user_status(u: Option<UserRecord>) -> int {
    match u {
        Some(x) => match x.status {
            Some(st) => st as int,
            None => 0,
        },
        None => 0,
    }
}

/// The identifier of the account, zero when absent.
pub open spec fn spec_user_id(u: Option<UserRecord>) -> u32 {
    match u {
        Some(x) => x.id,
        None => 0,
    }
}

/// The session-bound transport key text, empty when none is bound.
pub open spec fn spec_session_key(s: SessionData) -> Seq<char> {
    match s.auth_key {
        Some(k) => k@,
        None => Seq::empty(),
    }
}

/// Whether the submitted answer matches the session-bound challenge;
/// a session with no bound challenge matches nothing.
pub open spec fn spec_challenge_ok(s: SessionData, p: LoginParams) -> bool {
    match s.captcha {
        Some(st) => spec_challenge_match(p.captcha@, st@),
        None => false,
    }
}

/// The plaintext bytes the transport decryption yields: the base64 text
/// decoded (empty on failure), then decrypted with the session-bound
/// key (empty on failure).
pub open spec fn spec_plain(key: Seq<char>, password: Seq<char>) -> Seq<u8> {
    let cipher = match b64_of(password) {
        Some(c) => c,
        None => Seq::empty(),
    };
    match rsa_decrypt_of(key, cipher) {
        Some(p) => p,
        None => Seq::empty(),
    }
}

/// The decrypted password as text: empty when decryption failed or the
/// plaintext is not valid UTF-8.
pub open spec fn spec_plain_text(key: Seq<char>, password: Seq<char>) -> Seq<char> {
    let p = spec_plain(key, password);
    if valid_utf8(p) {
        decode_utf8(p)
    } else {
        Seq::empty()
    }
}

/// Whether the decrypted password verifies against the stored digest:
/// it is non-empty and its MD5 rendering in hex equals the digest.
pub open spec fn spec_password_ok(key: Seq<char>, password: Seq<char>, hash: Seq<char>) -> bool {
    let t = spec_plain_text(key, password);
    t.len() > 0 && spec_hex(md5_of(encode_utf8(t))) == hash
}

/// Whether a submitted login succeeds: every check of the flow, in
/// order, comes out clean.
pub open spec fn spec_login_success(s: SessionData, p: LoginParams, u: Option<UserRecord>) -> bool {
    &&& !spec_logged_in(s)
    &&& spec_params_msg(p) is None
    &&& spec_challenge_ok(s, p)
    &&& spec_user_found(u)
    &&& spec_password_ok(spec_session_key(s), p.password@, spec_user_hash(u))
    &&& spec_user_status(u) != 0
}

/// The message a submitted login comes back with: the checks run in
/// order and the first failure picks the message; an unknown account
/// and a wrong password share one generic message.
pub open spec fn spec_login_msg(s: SessionData, p: LoginParams, u: Option<UserRecord>) -> Seq<
    char,
> {
    if spec_logged_in(s) {
        "你已经登陆了"@
    } else if spec_params_msg(p) is Some {
        spec_params_msg(p)->0
    } else if !spec_challenge_ok(s, p) {
        "验证码错误"@
    } else if !spec_user_found(u) {
        "账号或者密码错误"@
    } else if !spec_password_ok(spec_session_key(s), p.password@, spec_user_hash(u)) {
        "账号或者密码错误"@
    } else if spec_user_status(u) == 0 {
        "账号不存在或者已被禁用"@
    } else {
        "登陆成功"@
    }
}

/// Judges a submitted login against the session and the account row the
/// caller looked up under the submitted name (`None` when the store had
/// no such row).  On success the session binds the account's identity
/// and drops the one-time transport key; on failure it is unchanged.
/// The bound challenge is retained either way.
pub fn login_check(session: &mut SessionData, params: &LoginParams, user: Option<&UserRecord>) -> (
    r: Envelope)
    ensures
        r.success == spec_login_success(*old(session), *params, spec_opt_user(user)),
        r.message@ == spec_login_msg(*old(session), *params, spec_opt_user(user)),
        final(session).captcha == old(session).captcha,
        r.success ==> final(session).login_id == Some(spec_user_id(spec_opt_user(user)))
            && final(session).auth_key is None,
        !r.success ==> *final(session) == *old(session),
{
    proof {
        reveal_strlit("");
        assert(""@ =~= Seq::<char>::empty());
    }
    if session.logged_in() {
        return error_envelope("你已经登陆了");
    }
    let vali = LoginValidate {
        name: Some(params.name.clone()),
        password: Some(params.password.clone()),
        captcha: Some(params.captcha.clone()),
    };
    assert(vali == (LoginValidate {
        name: Some(params.name),
        password: Some(params.password),
        captcha: Some(params.captcha),
    }));
    match vali.validate() {
        Err(m) => {
            return Envelope { success: false, message: m };
        },
        Ok(_) => {},
    }
    let challenge_ok = match &session.captcha {
        Some(stored) => challenge_matches(params.captcha.as_str(), stored.as_str()),
        None => false,
    };
    if !challenge_ok {
        return error_envelope("验证码错误");
    }
    let found = match user {
        Some(u) => u.id > 0,
        None => false,
    };
    if !found {
        return error_envelope("账号或者密码错误");
    }
    let pass: &str = match user {
        Some(u) => match &u.password {
            Some(p) => p.as_str(),
            None => "",
        },
        None => "",
    };
    let prikey: &str = match &session.auth_key {
        Some(k) => k.as_str(),
        None => "",
    };
    let cipher: Vec<u8> = match b64_decode(params.password.as_str()) {
        Some(v) => v,
        None => Vec::new(),
    };
    assert(cipher@ =~= (match b64_of(params.password@) {
        Some(c) => c,
        None => Seq::<u8>::empty(),
    }));
    let plain: Vec<u8> = match rsa_decrypt(prikey, cipher.as_slice()) {
        Some(v) => v,
        None => Vec::new(),
    };
    assert(plain@ =~= spec_plain(spec_session_key(*old(session)), params.password@));
    let depass: String = utf8_or_empty(plain);
    assert(depass@ == spec_plain_text(spec_session_key(*old(session)), params.password@));
    let mut password_ok = false;
    if !depass.as_str().is_empty() {
        let digest = md5_bytes(depass.as_str().as_bytes());
        let rendered = hex_encode(digest.as_slice());
        password_ok = str_equal(rendered.as_str(), pass);
    }
    if !password_ok {
        return error_envelope("账号或者密码错误");
    }
    let status: i32 = match user {
        Some(u) => match u.status {
            Some(st) => st,
            None => 0,
        },
        None => 0,
    };
    if status == 0 {
        return error_envelope("账号不存在或者已被禁用");
    }
    let uid: u32 = match user {
        Some(u) => u.id,
        None => 0,
    };
    session.set_login_id(uid);
    session.remove_auth_key();
    success_envelope("登陆成功")
}

/// The reply when the authenticated identity could not be written to
/// the backing session store: the attempt does not count as a login.
pub fn login_store_failed() -> (r: Envelope)
    ensures
        !r.success,
        r.message@ == "登陆失败"@,
{
    error_envelope("登陆失败")
}

/// What the login page serves: a redirect when already authenticated,
/// else the page itself, carrying the stripped public key when a
/// transport keypair could be drawn.
pub enum LoginPage {
    Redirect(String),
    Page { pub_key: Option<String> },
}

/// Prepares the login page from the session and a freshly drawn
/// transport keypair, if one could be drawn: the private half is bound
/// to the session, the public half is stripped to its PEM body for the
/// client.  Already-authenticated sessions are redirected untouched.
pub fn login_view(session: &mut SessionData, keys: Option<(String, String)>) -> (r: LoginPage)
    ensures
        final(session).login_id == old(session).login_id,
        final(session).captcha == old(session).captcha,
        spec_logged_in(*old(session)) ==> *final(session) == *old(session) && (r matches
        LoginPage::Redirect(p) && p@ == "/admin/index"@),
        !spec_logged_in(*old(session)) ==> match keys {
            Some(pair) => final(session).auth_key == Some(pair.0) && (r matches LoginPage::Page {
                pub_key,
            } && pub_key matches Some(pk) && pk@ == spec_pem_body(pair.1@)),
            None => final(session).auth_key == old(session).auth_key && (r matches LoginPage::Page {
                pub_key,
            } && pub_key is None),
        },
{
    if session.logged_in() {
        let target = match route_path("admin.index") {
            Some(p) => p,
            None => String::new(),
        };
        return LoginPage::Redirect(target);
    }
    match keys {
        Some((pri, pb)) => {
            let body = pem_body(pb.as_str());
            session.set_auth_key(pri);
            LoginPage::Page { pub_key: Some(body) }
        },
        None => LoginPage::Page { pub_key: None },
    }
}

/// Serves the login page: draws an ephemeral transport keypair when the
/// session is not yet authenticated and hands the outcome to
/// `login_view`.
pub fn login(session: &mut SessionData) -> (r: LoginPage)
    ensures
        final(session).login_id == old(session).login_id,
        final(session).captcha == old(session).captcha,
        spec_logged_in(*old(session)) ==> *final(session) == *old(session) && (r matches
        LoginPage::Redirect(p) && p@ == "/admin/index"@),
        !spec_logged_in(*old(session)) ==> (r matches LoginPage::Page { pub_key } && (match pub_key {
            Some(_) => final(session).auth_key is Some,
            None => final(session).auth_key == old(session).auth_key,
        })),
{
    let keys = if !session.logged_in() {
        generate_key_pair(TRANSPORT_KEY_BITS)
    } else {
        None
    };
    login_view(session, keys)
}

/// Logs the session out: an authenticated identity is dropped, anything
/// else is left untouched, and the reply always redirects to the login
/// page — logging out while not logged in changes nothing.
pub fn logout(session: &mut SessionData) -> (r: String)
    ensures
        r@ == "/admin/auth/login"@,
        final(session).captcha == old(session).captcha,
        final(session).auth_key == old(session).auth_key,
        spec_logged_in(*old(session)) ==> final(session).login_id is None,
        !spec_logged_in(*old(session)) ==> *final(session) == *old(session),
{
    proof {
        crate::routes::lemma_route_login_path();
    }
    if session.logged_in() {
        session.remove_login_id();
    }
    match route_path("admin.auth-login") {
        Some(p) => p,
        None => String::new(),
    }
}

/// An authentication attempt while already authenticated is rejected
/// with the fixed already-logged-in message, whatever the form and
/// whatever account the lookup produced: no later check runs.
pub proof fn lemma_already_logged_in_rejected(
    s: SessionData,
    p: LoginParams,
    u: Option<UserRecord>,
)
    requires
        spec_logged_in(s),
    ensures
        !spec_login_success(s, p, u),
        spec_login_msg(s, p, u) == "你已经登陆了"@,
{
}

/// A challenge answer that does not match the session-bound value is
/// rejected with the fixed challenge message, however correct the
/// credentials and whatever the account's status.
pub proof fn lemma_challenge_mismatch_rejected(
    s: SessionData,
    p: LoginParams,
    u: Option<UserRecord>,
)
    requires
        !spec_logged_in(s),
        spec_params_msg(p) is None,
        !spec_challenge_ok(s, p),
    ensures
        !spec_login_success(s, p, u),
        spec_login_msg(s, p, u) == "验证码错误"@,
{
}

/// A failed transport decryption always collapses to the generic
/// account-or-password message — never a distinct reply — whatever
/// account the lookup produced and whatever its status.
pub proof fn lemma_decrypt_failure_generic(s: SessionData, p: LoginParams, u: Option<UserRecord>)
    requires
        !spec_logged_in(s),
        spec_params_msg(p) is None,
        spec_challenge_ok(s, p),
        ({
            let cipher = match b64_of(p.password@) {
                Some(c) => c,
                None => Seq::empty(),
            };
            rsa_decrypt_of(spec_session_key(s), cipher) is None
        }),
    ensures
        !spec_login_success(s, p, u),
        spec_login_msg(s, p, u) == "账号或者密码错误"@,
{
    let key = spec_session_key(s);
    let plain = spec_plain(key, p.password@);
    assert(plain =~= Seq::<u8>::empty());
    assert(valid_utf8(plain));
    assert(decode_utf8(plain) =~= Seq::<char>::empty());
    assert(!spec_password_ok(key, p.password@, spec_user_hash(u)));
}

} // verus!
