use figma_cli::cli::{
    asset_script, canvas_info_script, collect_node_ids, css_sides, dashed_id, export_default_path,
    export_script, find_script, is_vertical, node_id_shaped, render_record, result_node_ids,
    to_component_script, undo_script, unwrap_script, var_delete_all_script, verify_default_path,
    verify_script, Json,
};
use figma_cli::config::{base_url, client_token, parse_pid, parse_u32, random_token, stored_token, DAEMON_PORT};
use figma_cli::daemon::{
    check_auth, exec_action, health_status, plugin_action, timeout_message, unauthorized_message,
    plugin_message, read_plugin_message, ExecAction, PluginAction, PluginMessage, Settle,
};
use figma_cli::engine::{icon_requests, icon_url, tokens_preset, TokenPreset};
use figma_cli::tools::{expand_home, needs_thumbnail};

#[test]
fn find_lowercases_query() {
    assert_eq!(
        find_script("Card BUTTON"),
        "return figma.currentPage.findAll(n => n.name.toLowerCase().includes(\"card button\")).map(n => ({ id: n.id, name: n.name, type: n.type }))"
    );
    assert!(canvas_info_script().starts_with("return { page: figma.currentPage.name"));
}

#[test]
fn unwrap_and_undo() {
    let u = unwrap_script("1:2", false);
    assert!(u.contains("const n = await figma.getNodeByIdAsync(\"1:2\");"));
    assert!(u.contains("if (!false) n.remove();"));
    assert!(undo_script("[\"1:2\"]").contains("for (const id of [\"1:2\"])"));
}

#[test]
fn variable_scripts() {
    assert!(var_delete_all_script(Some("shad")).contains("cols = cols.filter(c => c.name.includes(\"shad\"));"));
    assert!(!var_delete_all_script(None).contains("cols.filter"));
}

#[test]
fn export_scripts() {
    let png = export_script("png", None, "2");
    assert!(png.contains("node.exportAsync({ format: \"PNG\", constraint: { type: 'SCALE', value: 2 } })"));
    let svg = export_script("svg", Some("1:2"), "2");
    assert!(svg.contains("node.exportAsync({ format: \"SVG\" })"));
    assert!(svg.contains("node = await figma.getNodeByIdAsync(\"1:2\");"));
    assert!(verify_script(None, true).contains("if (true) {"));
}

#[test]
fn output_paths() {
    assert_eq!(dashed_id("12:34"), "12-34");
    assert_eq!(export_default_path(Some("1:2"), "PNG"), "./export-1-2.png");
    assert_eq!(export_default_path(None, "svg"), "./export-node.svg");
    assert_eq!(verify_default_path(Some("3:4")), "/tmp/figma-verify-3-4.png");
}

#[test]
fn padding_shorthand() {
    assert_eq!(css_sides(1, None, None, None), (1, 1, 1, 1));
    assert_eq!(css_sides(1, Some(2), None, None), (1, 2, 1, 2));
    assert_eq!(css_sides(1, Some(2), Some(3), None), (1, 2, 3, 2));
    assert_eq!(css_sides(1, Some(2), Some(3), Some(4)), (1, 2, 3, 4));
    assert_eq!(css_sides(1, None, Some(3), Some(4)), (1, 1, 1, 1));
}

#[test]
fn vertical_directions() {
    assert!(is_vertical("col") && is_vertical("column") && is_vertical("vertical"));
    assert!(!is_vertical("row") && !is_vertical("COL"));
}

#[test]
fn node_id_shapes() {
    assert!(node_id_shaped("1:2"));
    assert!(node_id_shaped("I1:2;3:4"));
    assert!(!node_id_shaped(":2"));
    assert!(!node_id_shaped("1:"));
    assert!(!node_id_shaped("12"));
}

fn obj(entries: Vec<(&str, Json)>) -> Json {
    Json::Object(entries.into_iter().map(|(k, v)| (k.to_string(), v)).collect())
}

#[test]
fn render_results_record_node_ids() {
    let result = obj(vec![
        ("children", Json::Array(vec![obj(vec![("id", Json::Str("3:4".into()))]), obj(vec![("id", Json::Str("x".into()))])])),
        ("id", Json::Str("1:2".into())),
        ("name", Json::Str("Card".into())),
    ]);
    assert_eq!(result_node_ids(&result), vec!["1:2", "3:4"]);
    let mut out = vec!["0:1".to_string()];
    collect_node_ids(&Json::Array(vec![result]), &mut out);
    assert_eq!(out, vec!["0:1", "1:2", "3:4"]);
    assert_eq!(render_record(&obj(vec![("id", Json::Str("1:2".into()))])), Some("{\"ids\":[\"1:2\"]}".to_string()));
    assert_eq!(render_record(&Json::Str("done".into())), None);
    assert_eq!(render_record(&Json::Null), None);
}

#[test]
fn node_id_list_scripts() {
    assert!(to_component_script(&["1:2".into()]).contains("const ids = [\"1:2\"];"));
    assert_eq!(asset_script("{\"a\":1}", "return 1;"), "(async () => { const __args = {\"a\":1}; return 1; })()");
}

#[test]
fn daemon_address_and_tokens() {
    assert_eq!(DAEMON_PORT, 3456);
    assert_eq!(base_url(), "http://127.0.0.1:3456");
    let t = random_token();
    assert_eq!(t.len(), 48);
    assert!(t.chars().all(|c| c.is_ascii_hexdigit() && !c.is_ascii_uppercase()));
    assert_ne!(random_token(), t);
    assert_eq!(stored_token(&format!("{t}\n")), Some(t.clone()));
    assert_eq!(stored_token(" \n "), None);
    assert_eq!(client_token("  abc \n"), "abc");
}

#[test]
fn pid_files_parse() {
    assert_eq!(parse_pid("1234\n"), Some(1234));
    assert_eq!(parse_pid(" +7 "), Some(7));
    assert_eq!(parse_pid("4294967295"), Some(u32::MAX));
    assert_eq!(parse_pid("4294967296"), None);
    assert_eq!(parse_pid("12a"), None);
    assert_eq!(parse_pid(""), None);
    assert_eq!(parse_u32("+"), None);
    for n in [0u32, 9, 10, 3456, 99999, u32::MAX] {
        assert_eq!(parse_pid(&n.to_string()), Some(n));
        assert_eq!(parse_u32(&n.to_string()), n.to_string().parse().ok());
    }
}

#[test]
fn auth_checks() {
    assert!(check_auth(Some("localhost:3456"), Some("t"), "t").is_ok());
    assert!(check_auth(None, Some("t"), "t").is_ok());
    assert_eq!(check_auth(Some("evil.com"), Some("t"), "t"), Err("Invalid host header".to_string()));
    assert_eq!(check_auth(Some("localhost.evil.com"), Some("t"), "t"), Err("Invalid host header".to_string()));
    assert_eq!(check_auth(Some("127.0.0.1.evil.com"), Some("t"), "t"), Err("Invalid host header".to_string()));
    assert_eq!(check_auth(Some("localhost:"), Some("t"), "t"), Err("Invalid host header".to_string()));
    assert_eq!(check_auth(Some("localhost:34a"), Some("t"), "t"), Err("Invalid host header".to_string()));
    assert!(check_auth(Some("localhost"), Some("t"), "t").is_ok());
    assert_eq!(check_auth(Some("127.0.0.1:3456"), None, "t"), Err("Invalid or missing token".to_string()));
    assert_eq!(check_auth(Some("127.0.0.1"), Some("u"), "t"), Err("Invalid or missing token".to_string()));
    assert_eq!(unauthorized_message("Invalid host header"), "Unauthorized: Invalid host header");
    assert_eq!(health_status(true), "ok");
    assert_eq!(health_status(false), "disconnected");
}

#[test]
fn exec_actions() {
    assert_eq!(exec_action("eval"), Ok(ExecAction::Eval));
    assert_eq!(exec_action("render-batch"), Ok(ExecAction::RenderBatch));
    assert_eq!(exec_action("nope"), Err("Unknown action: nope".to_string()));
    assert_eq!(exec_action(""), Err("Unknown action: ".to_string()));
    assert_eq!(timeout_message(25), "Plugin execution timeout (25s)");
}

fn msg(kind: Option<&str>, id: Option<u64>, error: Option<&str>) -> PluginMessage {
    PluginMessage {
        kind: kind.map(String::from),
        version: None,
        id,
        error: error.map(String::from),
        result: None,
        results: None,
    }
}

#[test]
fn plugin_messages() {
    assert!(matches!(plugin_action(msg(Some("hello"), None, None)), PluginAction::LogVersion(v) if v == "?"));
    assert!(matches!(plugin_action(msg(Some("ping"), None, None)), PluginAction::SendPong));
    assert!(matches!(plugin_action(msg(Some("result"), Some(3), None)), PluginAction::Settle(3, Settle::Value(Json::Null))));
    assert!(matches!(plugin_action(msg(Some("result"), Some(3), Some("boom"))), PluginAction::Settle(3, Settle::Failed(e)) if e == "boom"));
    assert!(matches!(plugin_action(msg(Some("batch-result"), Some(4), None)), PluginAction::Settle(4, Settle::Value(Json::Null))));
    assert!(matches!(plugin_action(msg(Some("result"), None, None)), PluginAction::Ignore));
    assert!(matches!(plugin_action(msg(None, Some(1), None)), PluginAction::Ignore));
}

#[test]
fn engine_decisions() {
    assert_eq!(tokens_preset("shadcn"), Ok(TokenPreset::Shadcn));
    assert_eq!(tokens_preset("x"), Err("unknown token preset 'x' (available: shadcn)".to_string()));
    assert_eq!(icon_url("lucide:star"), Some("https://api.iconify.design/lucide/star.svg?width=24&height=24".to_string()));
    assert_eq!(icon_url("a:b:c"), Some("https://api.iconify.design/a/b:c.svg?width=24&height=24".to_string()));
    assert_eq!(icon_url("star"), None);
    let reqs = icon_requests(&["star".into(), "mdi:home".into()]);
    assert_eq!(reqs.len(), 1);
    assert_eq!(reqs[0].0, "mdi:home");
}

#[test]
fn tool_inputs() {
    assert_eq!(expand_home("~/img.png", "/home/u"), "/home/u/img.png");
    assert_eq!(expand_home("/abs.png", "/home/u"), "/abs.png");
    assert!(needs_thumbnail(300, 10, 256));
    assert!(!needs_thumbnail(256, 256, 256));
}
