//! Status validity and the negotiation protocol: a valid negotiated
//! code wins, a malformed one falls back to the default instead of
//! failing the request, and the checked-status helper agrees with the
//! transport library it leans on.

use router_pipeline::context::{Context, CtxValue};
use router_pipeline::transport::{
    ResponseHead, STATUS_OK, STATUS_UNAUTHORIZED, apply_negotiated_status, status_or_default,
};

#[test]
fn status_or_default_keeps_valid_codes() {
    assert_eq!(status_or_default(100), 100);
    assert_eq!(status_or_default(STATUS_OK), 200);
    assert_eq!(status_or_default(STATUS_UNAUTHORIZED), 401);
    assert_eq!(status_or_default(999), 999);
}

#[test]
fn status_or_default_rejects_out_of_range_codes() {
    assert_eq!(status_or_default(0), STATUS_OK);
    assert_eq!(status_or_default(99), STATUS_OK);
    assert_eq!(status_or_default(1000), STATUS_OK);
    assert_eq!(status_or_default(u16::MAX), STATUS_OK);
}

#[test]
fn status_or_default_agrees_with_transport_library() {
    for code in [0u16, 1, 99, 100, 101, 200, 401, 404, 599, 600, 998, 999, 1000, 4242, u16::MAX] {
        let expected = match http::StatusCode::from_u16(code) {
            Ok(s) => s.as_u16(),
            Err(_) => 200,
        };
        assert_eq!(status_or_default(code), expected);
    }
}

#[test]
fn negotiated_valid_code_overrides_status() {
    let mut ctx = Context::new();
    ctx.insert("set_status_code", CtxValue::Num(418));
    let mut head = ResponseHead::new_ok();
    apply_negotiated_status(&ctx, &mut head);
    assert_eq!(head.status, 418);
    assert!(head.headers.is_empty());
}

#[test]
fn absent_negotiation_key_leaves_default_status() {
    let ctx = Context::new();
    let mut head = ResponseHead::new_ok();
    apply_negotiated_status(&ctx, &mut head);
    assert_eq!(head.status, STATUS_OK);
}

#[test]
fn invalid_negotiated_code_falls_back_to_default() {
    let mut ctx = Context::new();
    ctx.insert("set_status_code", CtxValue::Num(1000));
    let mut head = ResponseHead::new_ok();
    head.status = 503;
    apply_negotiated_status(&ctx, &mut head);
    assert_eq!(head.status, STATUS_OK);
}

#[test]
fn oversized_negotiated_value_changes_nothing() {
    let mut ctx = Context::new();
    ctx.insert("set_status_code", CtxValue::Num(1 << 40));
    let mut head = ResponseHead::new_ok();
    head.status = 503;
    apply_negotiated_status(&ctx, &mut head);
    assert_eq!(head.status, 503);
}

#[test]
fn mistyped_negotiated_value_changes_nothing() {
    let mut ctx = Context::new();
    ctx.insert("set_status_code", CtxValue::Flag(true));
    let mut head = ResponseHead::new_ok();
    apply_negotiated_status(&ctx, &mut head);
    assert_eq!(head.status, STATUS_OK);
}
