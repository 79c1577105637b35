use base64::Engine;
use figma_cli::cli::{
    connect_step, export_file, render_batch_jsx, screenshot_file, undo_ids, undo_ids_in, ConnectStep, Json,
    CONNECT_ATTEMPTS,
};
use figma_cli::cmds::{set_stroke, Sel};
use figma_cli::config::token_from_nibbles;
use figma_cli::daemon::{plugin_action, plugin_message, read_plugin_message, PluginAction, Settle};
use figma_cli::jsgen::var_loading_code;

#[test]
fn token_spells_its_nibbles() {
    assert_eq!(token_from_nibbles(&[0, 9, 10, 15]), "09af");
    assert_eq!(token_from_nibbles(&[]), "");
}

#[test]
fn screenshot_reply_to_file() {
    assert_eq!(screenshot_file(Some("No node selected or found"), None, None, None), Err("No node selected or found".to_string()));
    assert_eq!(
        screenshot_file(None, Some("aGk="), Some("1:2"), None),
        Ok(("/tmp/figma-verify-1-2.png".to_string(), b"hi".to_vec()))
    );
    assert_eq!(screenshot_file(None, Some("aGk="), None, Some("/tmp/x.png")), Ok(("/tmp/x.png".to_string(), b"hi".to_vec())));
    assert_eq!(screenshot_file(None, None, None, None), Ok(("/tmp/figma-verify-node.png".to_string(), vec![])));
    let err = screenshot_file(None, Some("not base64!"), None, None).unwrap_err();
    let reason = base64::engine::general_purpose::STANDARD.decode("not base64!").unwrap_err().to_string();
    assert_eq!(err, format!("decode screenshot: {reason}"));
}

#[test]
fn export_reply_to_file() {
    assert_eq!(
        export_file(None, Some("AAEC"), Some("3:4"), None, "PNG"),
        Ok(("./export-3-4.png".to_string(), vec![0, 1, 2]))
    );
    assert_eq!(export_file(Some("Node cannot be exported"), Some("AAEC"), None, None, "SVG"), Err("Node cannot be exported".to_string()));
    let reason = base64::engine::general_purpose::STANDARD.decode("%%").unwrap_err().to_string();
    assert_eq!(export_file(None, Some("%%"), None, None, "SVG").unwrap_err(), format!("decode export: {reason}"));
}

#[test]
fn render_batch_argument() {
    assert_eq!(render_batch_jsx(r#"["<Frame/>","<Text>a</Text>"]"#), Ok(vec!["<Frame/>".to_string(), "<Text>a</Text>".to_string()]));
    let err = render_batch_jsx("<Frame/>").unwrap_err();
    let reason = serde_json::from_str::<Vec<String>>("<Frame/>").unwrap_err().to_string();
    assert_eq!(err, format!("json_array must be a JSON array of JSX strings: {reason}"));
    assert!(render_batch_jsx("[1, 2]").is_err());
}

fn strs(j: &Json) -> Vec<String> {
    match j {
        Json::Array(items) => items
            .iter()
            .map(|i| match i {
                Json::Str(s) => s.clone(),
                _ => panic!("not a string"),
            })
            .collect(),
        _ => panic!("not an array"),
    }
}

#[test]
fn undo_reads_the_record() {
    assert_eq!(strs(&undo_ids_in(r#"{"ids":["1:2","3:4"]}"#)), vec!["1:2", "3:4"]);
    assert!(strs(&undo_ids_in("{}")).is_empty());
    assert!(strs(&undo_ids_in("not json")).is_empty());
    assert!(strs(&undo_ids(Json::Null)).is_empty());
}

#[test]
fn plugin_frames() {
    assert!(read_plugin_message("garbage").is_none());
    let m = read_plugin_message(r#"{"type":"result","id":7,"result":{"ok":true}}"#).unwrap();
    assert_eq!(m.kind.as_deref(), Some("result"));
    assert_eq!(m.id, Some(7));
    assert!(m.error.is_none());
    match plugin_action(m) {
        PluginAction::Settle(7, Settle::Value(Json::Object(e))) => {
            assert_eq!(e.len(), 1);
            assert_eq!(e[0].0, "ok");
            assert!(matches!(e[0].1, Json::Bool(true)));
        }
        other => panic!("unexpected {other:?}"),
    }
    let b = read_plugin_message(r#"{"type":"batch-result","id":2,"results":[1]}"#).unwrap();
    assert!(matches!(plugin_action(b), PluginAction::Settle(2, Settle::Value(Json::Array(_)))));
    let neg = read_plugin_message(r#"{"type":"result","id":-1}"#).unwrap();
    assert_eq!(neg.id, None);
    let big = read_plugin_message(r#"{"type":"result","id":18446744073709551616}"#).unwrap();
    assert_eq!(big.id, None);
    let err = read_plugin_message(r#"{"type":"result","id":1,"error":"boom"}"#).unwrap();
    assert!(matches!(plugin_action(err), PluginAction::Settle(1, Settle::Failed(e)) if e == "boom"));
    let hello = plugin_message(Json::Object(vec![("type".into(), Json::Str("hello".into())), ("version".into(), Json::Str("2".into()))]));
    assert!(matches!(plugin_action(hello), PluginAction::LogVersion(v) if v == "2"));
}

#[test]
fn connect_polls_thirty_times() {
    assert_eq!(CONNECT_ATTEMPTS, 30);
    assert_eq!(connect_step(0, Some(true)), ConnectStep::Connected);
    assert_eq!(connect_step(0, Some(false)), ConnectStep::Wait);
    assert_eq!(connect_step(28, None), ConnectStep::Wait);
    assert_eq!(connect_step(29, None), ConnectStep::GiveUp);
    assert_eq!(connect_step(29, Some(true)), ConnectStep::Connected);
}

#[test]
fn var_stroke_loads_variables() {
    let sel = Sel { node: None, query: None };
    let s = set_stroke(&sel, "var:border");
    assert!(s.contains(var_loading_code()));
    assert!(s.contains("boundFill(vars[\"border\"])"));
    assert!(!set_stroke(&sel, "#000").contains("boundFill = "));
}
