use figma_cli::cmds::{
    align, alignment_value, bind_padding, create_frame, create_rect, create_text, delete, duplicate,
    figjam_nodes, figjam_sticky, font_style, get, lint, node_tree, set_fill, set_radius, set_scale,
    sizing_hug, var_create, var_create_typed, variants_from, apply_mesh_wallpaper, MeshRecipe,
    side_is_sliceable, Sel, ShapeOpts, TextOpts,
};
use figma_cli::jsgen::{
    fill_code, is_var_ref, node_ids, node_selector, query_selector, smart_pos_code, stroke_code,
    var_loading_code, var_name,
};

fn wrap(body: &str) -> String {
    format!("(async () => {{\n{body}\n}})()")
}

fn sel_none() -> Sel {
    Sel { node: None, query: None }
}

#[test]
fn var_refs() {
    assert!(is_var_ref("var:primary"));
    assert!(!is_var_ref("#fff"));
    assert_eq!(var_name("var:card/bg"), "card/bg");
    assert_eq!(var_name("primary"), "primary");
}

#[test]
fn fill_code_hex_var_and_invalid() {
    assert_eq!(
        fill_code("#ff0000", "frame", "fills"),
        ("frame.fills = [{ type: 'SOLID', color: { r: 1, g: 0, b: 0 } }];".to_string(), false)
    );
    assert_eq!(
        fill_code("#336699", "n", "fills").0,
        format!("n.fills = [{{ type: 'SOLID', color: {{ r: {}, g: {}, b: {} }} }}];", 0x33 as f64 / 255.0, 0x66 as f64 / 255.0, 0x99 as f64 / 255.0)
    );
    assert_eq!(
        fill_code("var:primary", "rect", "fills"),
        ("rect.fills = [boundFill(vars[\"primary\"])];".to_string(), true)
    );
    assert_eq!(fill_code("nope", "x", "fills"), ("/* invalid color \"nope\" */".to_string(), false));
}

#[test]
fn stroke_code_branches() {
    assert_eq!(
        stroke_code("#000", "n", "2").0,
        "n.strokes = [{ type: 'SOLID', color: { r: 0, g: 0, b: 0 } }]; n.strokeWeight = 2;"
    );
    assert_eq!(
        stroke_code("var:border", "n", "1"),
        ("n.strokes = [boundFill(vars[\"border\"])]; n.strokeWeight = 1;".to_string(), true)
    );
}

#[test]
fn invalid_color_is_an_inert_comment() {
    let (js, uses) = fill_code("*/ figma.root.remove(); /*", "x", "fills");
    assert_eq!(js, "/* invalid color \"*\\/ figma.root.remove(); /*\" */");
    assert_eq!(js.matches("*/").count(), 1);
    assert!(!uses);
    assert_eq!(stroke_code("#\u{20ac}", "n", "1"), ("/* invalid color \"#\u{20ac}\" */".to_string(), false));
    assert_eq!(fill_code("a**/b", "x", "fills").0, "/* invalid color \"a**\\/b\" */");
}

#[test]
fn node_selector_branches() {
    assert_eq!(node_selector(None, None), "const nodes = figma.currentPage.selection;");
    assert_eq!(
        node_selector(Some("1:2"), None),
        "const __n = await figma.getNodeByIdAsync(\"1:2\"); const nodes = __n ? [__n] : [];"
    );
    assert_eq!(
        node_selector(Some("1:2, 3:4"), None),
        "const __ids = [\"1:2\",\"3:4\"]; const __res = await Promise.all(__ids.map(id => figma.getNodeByIdAsync(id))); const nodes = __res.filter(Boolean);"
    );
    assert_eq!(node_selector(Some("1:2"), Some("Card")), node_selector(Some("1:2"), None));
    let q = node_selector(None, Some("Card"));
    assert_eq!(q, query_selector("card"));
    assert!(q.contains("\"card\""));
}

#[test]
fn node_ids_split_on_spaces_and_commas() {
    assert_eq!(node_ids(" 1:2,,3:4  5:6,"), vec!["1:2", "3:4", "5:6"]);
    assert_eq!(node_ids(""), Vec::<String>::new());
    assert_eq!(node_ids("12:7"), vec!["12:7"]);
}

#[test]
fn smart_position_and_var_loading() {
    let code = smart_pos_code("100");
    assert!(code.contains("smartX += 100;"));
    assert!(var_loading_code().contains("const boundFill"));
}

#[test]
fn create_frame_exact() {
    let o = ShapeOpts {
        name: Some("Card".into()),
        width: "320".into(),
        height: None,
        x: Some("10".into()),
        y: "0".into(),
        fill: Some("#fff".into()),
        stroke: None,
        radius: Some("8".into()),
        opacity: None,
    };
    let expected = wrap(
        "const smartX = 10;\nconst frame = figma.createFrame();\nframe.name = \"Card\";\nframe.x = smartX;\nframe.y = 0;\nframe.resize(320, 320);\nframe.fills = [{ type: 'SOLID', color: { r: 1, g: 1, b: 1 } }];\nframe.cornerRadius = 8;\nfigma.currentPage.selection = [frame];\nreturn { id: frame.id, name: frame.name, x: smartX, y: 0 };",
    );
    assert_eq!(create_frame(&o), expected);
}

#[test]
fn create_rect_defaults_and_vars() {
    let o = ShapeOpts {
        name: None,
        width: "100".into(),
        height: Some("50".into()),
        x: None,
        y: "0".into(),
        fill: None,
        stroke: Some("var:border".into()),
        radius: None,
        opacity: Some("0.5".into()),
    };
    let code = create_rect(&o);
    assert!(code.starts_with("(async () => {\n\nconst collections"));
    assert!(code.contains("rect.name = \"Rectangle\";"));
    assert!(code.contains(&format!("rect.fills = [{{ type: 'SOLID', color: {{ r: {r}, g: {r}, b: {r} }} }}];", r = 0xd9 as f64 / 255.0)));
    assert!(code.contains("rect.opacity = 0.5;"));
    assert!(code.contains("rect.strokes = [boundFill(vars[\"border\"])]; rect.strokeWeight = 1;"));
}

#[test]
fn create_text_style_from_weight() {
    assert_eq!(font_style("semibold"), "Semi Bold");
    assert_eq!(font_style("SemiBold"), "Regular");
    let o = TextOpts {
        content: "Hi".into(),
        x: None,
        y: "0".into(),
        size: "16".into(),
        color: "#000000".into(),
        weight: "BOLD".into(),
        font: "Inter".into(),
        width: None,
        spacing: "100".into(),
    };
    let code = create_text(&o);
    assert!(code.contains("await figma.loadFontAsync({ family: \"Inter\", style: \"Bold\" });"));
    assert!(code.contains("text.characters = \"Hi\";"));
}

#[test]
fn set_fill_branches() {
    let s = set_fill(&sel_none(), "#00ff00");
    assert!(s.contains("t.fills = [{ type: 'SOLID', color: { r: 0, g: 1, b: 0 } }]"));
    assert!(s.contains("return 'Fill set on ' + nodes.length + ' element(s)';"));
    let grey = set_fill(&sel_none(), "blue");
    assert!(grey.contains("color: { r: 0.5, g: 0.5, b: 0.5 }"));
    let v = set_fill(&sel_none(), "var:primary");
    assert!(v.contains("if (v.name !== \"primary\") continue;"));
}

#[test]
fn set_each_scripts() {
    let sel = Sel { node: Some("1:2".into()), query: None };
    let expected = wrap(&format!(
        "{}\nif (nodes.length === 0) return 'No node found';\nnodes.forEach(n => {{ if ('cornerRadius' in n) n.cornerRadius = 4; }});\nreturn 'Radius set on ' + nodes.length + ' element(s)';",
        node_selector(Some("1:2"), None)
    ));
    assert_eq!(set_radius(&sel, "4"), expected);
    assert!(set_scale(&sel_none(), "2", true).contains("const scaleSpacing = false;"));
}

#[test]
fn sizing_and_alignment() {
    let h = sizing_hug("h");
    assert!(h.contains("n.layoutSizingHorizontal = 'HUG';"));
    assert!(!h.contains("layoutSizingVertical = 'HUG'"));
    assert_eq!(alignment_value("stretch"), "STRETCH");
    assert_eq!(alignment_value("middle"), "CENTER");
    assert!(align("START").contains("= 'MIN';"));
}

#[test]
fn bind_padding_sides() {
    assert!(bind_padding(&sel_none(), "space", "top").contains("const sides = [\"paddingTop\"];"));
    assert!(bind_padding(&sel_none(), "space", "all").contains("['paddingTop','paddingRight','paddingBottom','paddingLeft']"));
    assert!(bind_padding(&sel_none(), "space", "all").contains("v.name.endsWith(\"/space\")"));
}

#[test]
fn node_ops() {
    assert_eq!(
        delete(None),
        wrap("const sel = figma.currentPage.selection; if (sel.length === 0) return 'No selection'; const c = sel.length; sel.forEach(n => n.remove()); return 'Deleted ' + c + ' element(s)';")
    );
    assert!(delete(Some("5:6")).contains("return 'Deleted ' + \"5:6\";"));
    assert!(duplicate(Some("1:1"), "20").contains("c.x += 20; c.y += 20;"));
    assert!(get(None).starts_with("(async () => {\nconst n = figma.currentPage.selection[0];"));
    assert!(node_tree(Some("1:2"), 3).contains("const maxDepth = 3;\nconst root = await figma.getNodeByIdAsync(\"1:2\");"));
    assert!(lint().contains("Generic name"));
}

#[test]
fn figjam_scripts() {
    assert!(figjam_nodes(25).contains("slice(0, 25)"));
    assert!(figjam_sticky("note", "1", "2", Some("#ff0000")).contains("sticky.fills = [{ type: 'SOLID', color: { r: 1, g: 0, b: 0 } }];"));
    assert!(!figjam_sticky("note", "1", "2", Some("var:x")).contains("sticky.fills"));
}

#[test]
fn variables_and_variants() {
    assert_eq!(var_create("c", "Col", "color", Some("#fff")), var_create_typed("c", "Col", "COLOR", Some("#fff")));
    assert!(var_create("c", "Col", "float", None).contains("createVariable(\"c\", col, \"FLOAT\")"));
    let v = variants_from(&["1:1".into(), "1:2".into()], "Size", &["sm".into(), "lg".into()], "");
    assert!(v.contains("const ids = [\"1:1\",\"1:2\"];\nconst values = [\"sm\",\"lg\"];\nconst property = \"Size\";"));
}

#[test]
fn mesh_defaults() {
    let r = MeshRecipe { base: None, blobs: None, blur_fraction: None };
    let code = apply_mesh_wallpaper(None, &r, "800", "600", "Mesh");
    assert!(code.contains("color: __hex(\"#000000\")"));
    assert!(code.contains("const __blobs = [];"));
    assert!(code.contains("Math.round(D * 0.42)"));
    assert!(code.contains("__target.resize(800, 600);"));
}

#[test]
fn padding_side_must_start_with_ascii() {
    assert!(side_is_sliceable("all"));
    assert!(side_is_sliceable("top"));
    assert!(!side_is_sliceable(""));
    assert!(!side_is_sliceable("\u{e9}t\u{e9}"));
}
