//! Checks of the guard, the guestbook decisions, the upload planning and
//! the error replies.

use nako::challenge::{captcha, challenge_matches, ChallengeOutcome};
use nako::entity::{AttachRecord, GuestbookRecord};
use nako::envelope::{error_envelope, success_envelope};
use nako::errors::{
    app_default, error_page, form_parser_error, get_error_response, json_parser_error, not_found,
    path_parser_error, query_parser_error, ErrorResponse,
};
use nako::guard::{auth, GuardDecision, HttpMethod};
use nako::guestbook::{
    batch_delete, batch_delete_done, delete, delete_result, detail, list, update_result,
    update_status, BatchDeleteForm, DeleteForm, DetailQuery, UpdateStatusForm, UpdateStatusQuery,
};
use nako::routes::route_path;
use nako::session::SessionData;
use nako::upload::{avatar, file_checksum, plan_upload, upload_done, upload_failed, UploadPlan};

fn guest(id: u32) -> GuestbookRecord {
    GuestbookRecord {
        id,
        name: "visitor".to_string(),
        message: "hello".to_string(),
        phone: String::new(),
        email: String::new(),
        qq: String::new(),
        weixin: String::new(),
        status: Some(1),
    }
}

#[test]
fn issuing_a_challenge_overwrites_the_previous_binding() {
    let mut session = SessionData::new();
    session.set_captcha("OLD1".to_string());
    match captcha(&mut session) {
        ChallengeOutcome::Image(png) => {
            assert!(!png.is_empty());
            let bound = session.captcha.clone().expect("a bound answer");
            assert_ne!(bound, "OLD1");
            assert_eq!(bound.chars().count(), 4);
            assert!(bound.chars().all(|c| c.is_ascii_alphanumeric()));
        },
        ChallengeOutcome::NoData => {
            assert_eq!(session.captcha.as_deref(), Some("OLD1"));
        },
    }
}

#[test]
fn challenge_comparison_ignores_ascii_case_only() {
    assert!(challenge_matches("a1b2", "A1B2"));
    assert!(challenge_matches("A1B2", "A1B2"));
    assert!(challenge_matches("aBcD", "AbCd"));
    assert!(!challenge_matches("A1B3", "A1B2"));
    assert!(!challenge_matches("A1B", "A1B2"));
}

#[test]
fn guard_passes_allowed_prefixes_without_a_session() {
    let anon = SessionData::new();
    assert!(matches!(
        auth("/admin/auth/captcha", HttpMethod::Get, &anon),
        GuardDecision::Pass
    ));
    assert!(matches!(
        auth("/admin/auth/login", HttpMethod::Post, &anon),
        GuardDecision::Pass
    ));
}

#[test]
fn guard_denies_anonymous_requests_by_method() {
    let anon = SessionData::new();
    match auth("/admin/index", HttpMethod::Post, &anon) {
        GuardDecision::DenyJson(e) => {
            assert!(!e.success);
            assert_eq!(e.message, "请先登陆");
        },
        _ => panic!("expected a JSON denial"),
    }
    match auth("/admin/user/list", HttpMethod::Get, &anon) {
        GuardDecision::DenyHtml { message, login_url } => {
            assert_eq!(message, "请先登陆");
            assert_eq!(login_url, "/admin/auth/login");
        },
        _ => panic!("expected an HTML denial"),
    }
}

#[test]
fn guard_passes_authenticated_sessions() {
    let mut session = SessionData::new();
    session.set_login_id(2);
    assert!(matches!(
        auth("/admin/index", HttpMethod::Post, &session),
        GuardDecision::Pass
    ));
}

#[test]
fn guard_treats_zero_identity_as_anonymous() {
    let mut session = SessionData::new();
    session.set_login_id(0);
    assert!(matches!(
        auth("/admin/index", HttpMethod::Get, &session),
        GuardDecision::DenyHtml { .. }
    ));
}

#[test]
fn route_table_resolves_known_names() {
    assert_eq!(route_path("admin.index").as_deref(), Some("/admin/index"));
    assert_eq!(
        route_path("admin.user-update-password").as_deref(),
        Some("/admin/user/update-password")
    );
    assert_eq!(route_path("admin.auth-logout").as_deref(), Some("/admin/auth/logout"));
    assert!(route_path("blog.index").is_none());
}

#[test]
fn detail_rejects_missing_ids_and_missing_rows() {
    assert_eq!(
        detail(&DetailQuery { id: 0 }, Some(&guest(1))).unwrap_err(),
        "ID不能为空"
    );
    assert_eq!(detail(&DetailQuery { id: 5 }, None).unwrap_err(), "留言不存在");
    assert_eq!(
        detail(&DetailQuery { id: 5 }, Some(&guest(0))).unwrap_err(),
        "留言不存在"
    );
    assert!(detail(&DetailQuery { id: 5 }, Some(&guest(5))).is_ok());
}

#[test]
fn delete_follows_the_same_checks_with_json_replies() {
    let e = delete(&DeleteForm { id: 0 }, Some(&guest(1))).unwrap_err();
    assert!(!e.success);
    assert_eq!(e.message, "ID不能为空");
    let e = delete(&DeleteForm { id: 4 }, None).unwrap_err();
    assert_eq!(e.message, "要删除的留言不存在");
    assert!(delete(&DeleteForm { id: 4 }, Some(&guest(4))).is_ok());
    assert_eq!(delete_result(true).message, "删除成功");
    assert_eq!(delete_result(false).message, "删除失败");
}

#[test]
fn batch_delete_parses_the_selection() {
    let e = batch_delete(&BatchDeleteForm { ids: String::new() }).unwrap_err();
    assert_eq!(e.message, "未选中数据");
    let ids = batch_delete(&BatchDeleteForm { ids: "1,2,30".to_string() }).unwrap();
    assert_eq!(ids, vec![1, 2, 30]);
    let ids = batch_delete(&BatchDeleteForm {
        ids: "7,,x,+12,4294967295,4294967296".to_string(),
    })
    .unwrap();
    assert_eq!(ids, vec![7, 0, 0, 12, 4294967295, 0]);
    assert_eq!(batch_delete_done().message, "批量删除成功");
}

#[test]
fn update_status_checks_id_flag_and_row_in_order() {
    let q0 = UpdateStatusQuery { id: 0 };
    let q = UpdateStatusQuery { id: 3 };
    let on = UpdateStatusForm { status: 1 };
    let bad = UpdateStatusForm { status: 9 };
    assert_eq!(
        update_status(&q0, &on, Some(&guest(3))).unwrap_err().message,
        "ID不能为空"
    );
    assert_eq!(
        update_status(&q, &bad, Some(&guest(3))).unwrap_err().message,
        "状态不能为空"
    );
    assert_eq!(update_status(&q, &on, None).unwrap_err().message, "要更改的留言不存在");
    assert!(update_status(&q, &on, Some(&guest(3))).is_ok());
    assert_eq!(update_result(true).message, "更新成功");
    assert_eq!(update_result(false).message, "更新失败");
}

#[test]
fn list_wraps_the_page_under_its_message() {
    let (data, env) = list(vec![guest(1), guest(2)], 17);
    assert_eq!(data.list.len(), 2);
    assert_eq!(data.count, 17);
    assert!(env.success);
    assert_eq!(env.message, "获取成功");
}

#[test]
fn file_checksum_matches_the_digest_of_the_text() {
    // MD5 of "hello", rendered in lower-case hex.
    assert_eq!(file_checksum(b"hello"), "5d41402abc4b2a76b9719d911017c592");
    assert_eq!(file_checksum(b""), "d41d8cd98f00b204e9800998ecf8427e");
}

#[test]
fn upload_planning_skips_reuses_and_stores() {
    assert!(matches!(plan_upload("", "fresh", None), UploadPlan::Skip));
    let existing = AttachRecord {
        id: 11,
        name: "old.png".to_string(),
        path: "stored/old.png".to_string(),
        ext: "png".to_string(),
        size: 4,
        md5: "d41d8cd98f00b204e9800998ecf8427e".to_string(),
        status: 1,
    };
    match plan_upload("photo.png", "fresh", Some(&existing)) {
        UploadPlan::Reuse { id, url } => {
            assert_eq!(id, 11);
            assert_eq!(url, "stored/old.png");
        },
        _ => panic!("expected reuse"),
    }
    match plan_upload("photo.tar.gz", "fresh", None) {
        UploadPlan::Store { target, ext } => {
            assert_eq!(ext, "gz");
            assert_eq!(target, "fresh.gz");
        },
        _ => panic!("expected store"),
    }
    match plan_upload("noext", "fresh", None) {
        UploadPlan::Store { target, ext } => {
            assert_eq!(ext, "");
            assert_eq!(target, "fresh.");
        },
        _ => panic!("expected store"),
    }
}

#[test]
fn upload_replies_carry_the_fixed_texts() {
    let done = upload_done();
    assert!(done.success);
    assert_eq!(done.message, "上传成功");
    let failed = upload_failed();
    assert!(!failed.success);
    assert_eq!(failed.message, "上传失败");
}

#[test]
fn avatar_names_come_from_the_owner_digest() {
    let e = avatar("", 1).unwrap_err();
    assert_eq!(e.message, "上传失败");
    // SHA-1 of the text "1", rendered in lower-case hex.
    assert_eq!(
        avatar("me.png", 1).unwrap(),
        "avatar/356a192b7913b04c54574d18c28d46e6395428ab.png"
    );
}

#[test]
fn parser_error_messages_hide_detail_outside_debugging() {
    assert_eq!(json_parser_error(true, "raw words".to_string()), "raw words");
    assert_eq!(json_parser_error(false, "raw words".to_string()), "json error");
    assert_eq!(form_parser_error(false, "raw".to_string()), "form empty");
    assert_eq!(query_parser_error(false, "raw".to_string()), "query empty");
    assert_eq!(path_parser_error(false, "raw".to_string()), "path error");
}

#[test]
fn error_replies_take_the_shape_of_the_method() {
    match get_error_response(false, HttpMethod::Get, "oops") {
        ErrorResponse::Text(t) => assert_eq!(t, "oops"),
        _ => panic!("expected text"),
    }
    match not_found(true, HttpMethod::Post) {
        ErrorResponse::Json(e) => assert_eq!(e.message, "Page not found"),
        _ => panic!("expected JSON"),
    }
    match app_default(true, HttpMethod::Get) {
        ErrorResponse::Html { message, url } => {
            assert_eq!(message, "404 Not Found");
            assert!(url.is_empty());
        },
        _ => panic!("expected HTML"),
    }
    match error_page(HttpMethod::Post) {
        ErrorResponse::Json(e) => assert_eq!(e.message, "页面不存在"),
        _ => panic!("expected JSON"),
    }
    match error_page(HttpMethod::Other) {
        ErrorResponse::Html { message, .. } => assert_eq!(message, "页面不存在"),
        _ => panic!("expected HTML"),
    }
}

#[test]
fn envelopes_carry_flag_and_message() {
    let ok = success_envelope("fine");
    assert!(ok.success);
    assert_eq!(ok.message, "fine");
    let bad = error_envelope("no");
    assert!(!bad.success);
    assert_eq!(bad.message, "no");
}

#[test]
fn defaulted_values_stand_for_absent_rows() {
    let n: u32 = nako::entity::default();
    assert_eq!(n, 0);
    let s: String = nako::entity::default();
    assert!(s.is_empty());
}
