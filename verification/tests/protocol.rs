use gym_core::command::{error_envelope, error_reply, ok_reply, route, version_reply};
use gym_core::ffi::{fallback_reply, json_string, length_code, PendingReply};
use gym_core::{CommandKind, Error};

#[test]
fn version_is_the_package_version() {
    assert_eq!(gym_core::version(), "0.1.4");
    assert_eq!(version_reply(), r#"{"version":"0.1.4"}"#);
    assert!(version_reply().contains(gym_core::version()));
}

#[test]
fn routing_of_command_names() {
    assert_eq!(route("load", false).unwrap(), CommandKind::Load);
    assert_eq!(route("reset", false).unwrap(), CommandKind::Reset);
    assert_eq!(route("step", true).unwrap(), CommandKind::Step);
    assert_eq!(route("spec", false).unwrap(), CommandKind::Spec);
    assert_eq!(route("version", true).unwrap(), CommandKind::Version);
    match route("step", false) {
        Err(Error::BadAction(m)) => assert_eq!(m, "missing action"),
        other => panic!("expected BadAction, got {other:?}"),
    }
    let unknown = route("frobnicate", true).unwrap_err();
    assert_eq!(unknown.message(), "bad spec: unknown cmd: frobnicate");
    assert!(error_reply(&unknown).contains("unknown cmd"));
    assert!(matches!(route("Load", false), Err(Error::BadSpec(_))));
    assert!(matches!(route("", false), Err(Error::BadSpec(_))));
}

#[test]
fn in_band_error_replies() {
    assert_eq!(
        error_reply(&Error::NoData),
        r#"{"error":"no data loaded","ok":false}"#
    );
    assert!(error_reply(&Error::NotReset).contains("not reset"));
    assert!(error_reply(&Error::EpisodeDone).contains("episode done"));
    let bad = Error::BadAction("discrete action 9 not in 0..3".into());
    assert_eq!(
        error_reply(&bad),
        r#"{"error":"bad action: discrete action 9 not in 0..3","ok":false}"#
    );
    // The message is escaped by the JSON writer.
    let quoted = Error::Parse("expected \"x\"\n".into());
    assert_eq!(
        error_reply(&quoted),
        r#"{"error":"parse: expected \"x\"\n","ok":false}"#
    );
    assert!(error_reply(&Error::NoData).contains("\"ok\":false"));
    assert_eq!(ok_reply(), r#"{"ok":true}"#);
}

#[test]
fn error_messages() {
    assert_eq!(Error::Parse("x".into()).message(), "parse: x");
    assert_eq!(
        Error::UnknownIndicator("Foo".into()).message(),
        "unknown indicator: Foo"
    );
    assert_eq!(Error::BadSpec("y".into()).message(), "bad spec: y");
    assert_eq!(Error::BadAction("z".into()).message(), "bad action: z");
    assert_eq!(Error::Data("d".into()).message(), "data: d");
    assert_eq!(Error::NoData.message(), "no data loaded");
    assert_eq!(Error::NotReset.message(), "not reset");
    assert_eq!(Error::EpisodeDone.message(), "episode done");
    let missing = Error::MissingFeed {
        indicator: "Microprice".into(),
        feed: "orderbook".into(),
        why: "no bar in this dataset carries order-book levels".into(),
    };
    assert_eq!(
        missing.message(),
        "Microprice needs the orderbook feed: no bar in this dataset carries order-book levels"
    );
}

#[test]
fn json_string_escapes() {
    assert_eq!(json_string("plain"), "\"plain\"");
    assert_eq!(json_string(""), "\"\"");
    assert_eq!(json_string("a\"b\\c"), r#""a\"b\\c""#);
    assert_eq!(json_string("l1\nl2\r\t"), r#""l1\nl2\r\t""#);
    assert_eq!(json_string("\u{1}\u{1f}"), r#""\u0001\u001f""#);
    assert_eq!(json_string("\u{8}\u{c}"), r#""\u0008\u000c""#);
    assert_eq!(json_string("é ü"), "\"é ü\"");
    assert_eq!(
        fallback_reply("bad \"x\""),
        r#"{"ok":false,"error":"bad \"x\""}"#
    );
}

#[test]
fn a_reply_is_computed_once_across_buffer_retries() {
    let cmd = br#"{"cmd":"step","action":2}"#;
    let mut p = PendingReply::new();
    assert!(!p.is_retry(cmd));
    p.store(cmd, r#"{"step":1.0}"#.to_string());
    // Two length-only calls: nothing is written, the reply stays pending.
    let a = p.deliver(0, false);
    let b = p.deliver(0, false);
    assert_eq!(a, b);
    assert_eq!(a.len, 12);
    assert!(!a.delivered);
    assert!(p.is_retry(cmd));
    assert!(!p.is_retry(br#"{"cmd":"step","action":1}"#));
    // A buffer exactly as long as the reply leaves no room for the NUL.
    assert!(!p.deliver(12, true).delivered);
    assert_eq!(p.reply().unwrap(), r#"{"step":1.0}"#);
    // A large enough buffer delivers it and clears the cache.
    let c = p.deliver(13, true);
    assert!(c.delivered);
    assert!(p.reply().is_none());
    assert!(!p.is_retry(cmd));
}

#[test]
fn a_large_buffer_without_a_pointer_delivers_nothing() {
    let mut p = PendingReply::new();
    p.store(b"{}", "é".to_string());
    let d = p.deliver(1000, false);
    assert_eq!(d.len, 2);
    assert!(!d.delivered);
    assert!(p.is_retry(b"{}"));
}

#[test]
fn length_codes_saturate() {
    assert_eq!(length_code(0), 0);
    assert_eq!(length_code(17), 17);
    assert_eq!(length_code(2_147_483_647), i32::MAX);
    assert_eq!(length_code(usize::MAX), i32::MAX);
}

#[test]
fn the_error_envelope_wraps_a_quoted_message() {
    assert_eq!(
        error_envelope("\"not reset\""),
        r#"{"error":"not reset","ok":false}"#
    );
    assert_eq!(error_envelope(""), r#"{"error":,"ok":false}"#);
}

#[test]
fn in_band_errors_use_the_serde_escapes() {
    let e = Error::BadSpec("a\u{8}\u{c}\"b\u{1}\u{1f}\\\n\r\té".into());
    assert_eq!(
        error_reply(&e),
        r#"{"error":"bad spec: a\b\f\"b\u0001\u001f\\\n\r\té","ok":false}"#
    );
}

#[test]
fn json_string_reads_back_as_its_text() {
    let texts = [
        "",
        "plain",
        "a\"b\\c",
        "\u{0}\u{1}\u{8}\u{c}\u{1f} \u{7f}",
        "l1\nl2\r\t/",
        "é ü 漢 🎉",
    ];
    for t in texts {
        let lit = json_string(t);
        assert!(lit.chars().all(|c| c >= ' '), "{lit:?}");
        let back: String = serde_json::from_str(&lit).unwrap();
        assert_eq!(back, t);
    }
}

#[test]
fn in_band_error_replies_read_back_as_their_message() {
    let e = Error::Data("row 3: \"close\"\u{0}\u{8} missing\n".into());
    let reply = error_reply(&e);
    assert!(reply.chars().all(|c| c >= ' '), "{reply:?}");
    let v: serde_json::Value = serde_json::from_str(&reply).unwrap();
    assert_eq!(v["error"].as_str().unwrap(), e.message());
    assert_eq!(v["ok"].as_bool(), Some(false));
}
