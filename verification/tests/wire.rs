use figma_cli::cli::Json;
use figma_cli::config::{config_dir, pid_file, token_file};
use figma_cli::daemon::{daemon_reply, eval_batch_message, eval_message, exec_call, ExecCall};
use figma_cli::json::js_string;
use figma_cli::tools::image_pixels;

fn obj(entries: Vec<(&str, Json)>) -> Json {
    Json::Object(entries.into_iter().map(|(k, v)| (k.to_string(), v)).collect())
}

fn s(t: &str) -> Json {
    Json::Str(t.to_string())
}

#[test]
fn daemon_replies() {
    assert!(matches!(daemon_reply(true, r#"{"result":"ok","mode":"safe"}"#), Ok(Json::Str(v)) if v == "ok"));
    assert!(matches!(daemon_reply(true, r#"{"mode":"safe"}"#), Ok(Json::Null)));
    assert_eq!(daemon_reply(false, r#"{"error":"Plugin not connected"}"#).unwrap_err(), "Plugin not connected");
    assert_eq!(daemon_reply(false, "{}").unwrap_err(), "unknown daemon error");
    assert_eq!(daemon_reply(true, "<html>").unwrap_err(), "bad daemon response: error decoding response body");
}

#[test]
fn exec_payloads() {
    match exec_call(&obj(vec![("action", s("eval")), ("code", s("return 1"))])) {
        Ok(ExecCall::Eval { code }) => assert_eq!(code, "return 1"),
        _ => panic!("eval"),
    }
    match exec_call(&obj(vec![("action", s("eval"))])) {
        Ok(ExecCall::Eval { code }) => assert_eq!(code, ""),
        _ => panic!("eval without code"),
    }
    match exec_call(&obj(vec![("action", s("render")), ("jsx", s("<Frame/>")), ("collection", s("c"))])) {
        Ok(ExecCall::Render { jsx, collection }) => {
            assert_eq!(jsx, "<Frame/>");
            assert_eq!(collection.as_deref(), Some("c"));
        }
        _ => panic!("render"),
    }
    let batch = obj(vec![
        ("action", s("render-batch")),
        ("jsxArray", Json::Array(vec![s("<A/>"), Json::Number("3".into()), s("<B/>")])),
        ("vertical", Json::Bool(true)),
    ]);
    match exec_call(&batch) {
        Ok(ExecCall::RenderBatch { jsx_array, vertical, collection }) => {
            assert_eq!(jsx_array, vec!["<A/>".to_string(), "<B/>".to_string()]);
            assert!(vertical);
            assert!(collection.is_none());
        }
        _ => panic!("render-batch"),
    }
    match exec_call(&obj(vec![("action", s("render-batch")), ("vertical", s("yes"))])) {
        Ok(ExecCall::RenderBatch { jsx_array, vertical, .. }) => {
            assert!(jsx_array.is_empty());
            assert!(!vertical);
        }
        _ => panic!("render-batch defaults"),
    }
    assert!(matches!(exec_call(&obj(vec![])), Err(m) if m == "Unknown action: "));
    assert!(matches!(exec_call(&Json::Null), Err(m) if m == "Unknown action: "));
}

#[test]
fn plugin_messages_match_serde_json() {
    let code = "return \"hi\"\n";
    let mut m = serde_json::Map::new();
    m.insert("action".into(), serde_json::Value::from("eval"));
    m.insert("id".into(), serde_json::Value::from(7u64));
    m.insert("code".into(), serde_json::Value::from(code));
    let expected = serde_json::Value::Object(m).to_string();
    assert_eq!(eval_message(7, code), expected);
    let codes = vec!["a".to_string(), "b\\c".to_string()];
    let mut m = serde_json::Map::new();
    m.insert("action".into(), serde_json::Value::from("eval-batch"));
    m.insert("id".into(), serde_json::Value::from(12u64));
    m.insert("codes".into(), serde_json::Value::from(codes.clone()));
    let expected = serde_json::Value::Object(m).to_string();
    assert_eq!(eval_batch_message(12, &codes), expected);
}

#[test]
fn js_string_reads_back() {
    for t in ["", "plain", "quote \" and \\ back", "line\nbreak\u{1}", "emoji \u{1F600}"] {
        assert_eq!(serde_json::from_str::<String>(&js_string(t)).unwrap(), t);
    }
}

#[test]
fn home_paths() {
    assert_eq!(pid_file("/home/a"), "/home/a/.figma-cli-daemon.pid");
    assert_eq!(config_dir("/home/a/"), "/home/a/.figma-ds-cli");
    assert_eq!(token_file("/root"), "/root/.figma-ds-cli/.daemon-token");
    assert_eq!(pid_file(""), ".figma-cli-daemon.pid");
    assert_eq!(
        std::path::Path::new("/home/a").join(".figma-ds-cli").join(".daemon-token").to_str().unwrap(),
        token_file("/home/a")
    );
}

fn png(w: u32, h: u32) -> Vec<u8> {
    let img = image::RgbaImage::from_pixel(w, h, image::Rgba([10, 20, 30, 255]));
    let mut out = std::io::Cursor::new(Vec::new());
    img.write_to(&mut out, image::ImageFormat::Png).unwrap();
    out.into_inner()
}

#[test]
fn image_pixels_decode_and_shrink() {
    let (w, h, px) = image_pixels("a.png", &png(4, 2), "png", 256).unwrap();
    assert_eq!((w, h), (4, 2));
    assert_eq!(px.len(), 4 * 2 * 4);
    assert_eq!(&px[0..4], &[10, 20, 30, 255]);
    let (w, h, px) = image_pixels("big.png", &png(512, 128), "png", 256).unwrap();
    assert_eq!((w, h), (256, 64));
    assert_eq!(px.len(), 256 * 64 * 4);
    let err = image_pixels("x.png", b"not an image", "png", 256).unwrap_err();
    assert!(err.starts_with("could not open image x.png: "));
    let err = image_pixels("x.foo", &png(1, 1), "foo", 256).unwrap_err();
    assert!(err.starts_with("could not open image x.foo: "));
}
