//! The shared typed context: typed reads, last-write-wins inserts,
//! mismatches that fail softly, and atomic log appends that lose
//! nothing.

use router_pipeline::context::{Context, ContextError, CtxValue, Timing};

#[test]
fn written_value_is_visible_to_later_reads() {
    let mut ctx = Context::new();
    ctx.insert("set_status_code", CtxValue::Num(401));
    assert_eq!(ctx.get_num("set_status_code"), Ok(Some(401)));
}

#[test]
fn missing_key_reads_as_none_not_error() {
    let ctx = Context::new();
    assert_eq!(ctx.get_num("set_status_code"), Ok(None));
    assert_eq!(ctx.get_flag("debug"), Ok(None));
    assert!(matches!(ctx.get_timings("subgraph-response-times"), Ok(None)));
}

#[test]
fn mismatched_read_fails_without_panicking() {
    let mut ctx = Context::new();
    ctx.insert("debug", CtxValue::Flag(true));
    assert_eq!(ctx.get_num("debug"), Err(ContextError::TypeMismatch));
    assert_eq!(ctx.get_flag("debug"), Ok(Some(true)));
}

#[test]
fn insert_is_last_write_wins() {
    let mut ctx = Context::new();
    ctx.insert("set_status_code", CtxValue::Num(200));
    ctx.insert("set_status_code", CtxValue::Num(401));
    assert_eq!(ctx.get_num("set_status_code"), Ok(Some(401)));
}

#[test]
fn independent_keys_do_not_interfere() {
    let mut ctx = Context::new();
    ctx.insert("debug", CtxValue::Flag(true));
    ctx.insert("set_status_code", CtxValue::Num(401));
    assert_eq!(ctx.get_flag("debug"), Ok(Some(true)));
    assert_eq!(ctx.get_num("set_status_code"), Ok(Some(401)));
}

#[test]
fn upserts_accumulate_every_append() {
    let mut ctx = Context::new();
    let services = ["accounts", "products", "reviews", "inventory", "shipping"];
    for (i, service) in services.iter().enumerate() {
        let t = Timing { service: String::from(*service), millis: i as u64 };
        assert_eq!(ctx.upsert_timing("subgraph-response-times", t), Ok(()));
    }
    let log = ctx
        .get_timings("subgraph-response-times")
        .expect("well-typed log")
        .expect("log present");
    assert_eq!(log.len(), services.len());
    for (i, service) in services.iter().enumerate() {
        assert_eq!(log[i].service, String::from(*service));
        assert_eq!(log[i].millis, i as u64);
    }
}

#[test]
fn upsert_against_mismatched_key_reports_and_keeps_store() {
    let mut ctx = Context::new();
    ctx.insert("subgraph-response-times", CtxValue::Flag(false));
    let t = Timing { service: String::from("accounts"), millis: 7 };
    assert_eq!(
        ctx.upsert_timing("subgraph-response-times", t),
        Err(ContextError::TypeMismatch)
    );
    assert_eq!(ctx.get_flag("subgraph-response-times"), Ok(Some(false)));
}
