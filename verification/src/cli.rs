//! Scripts and small decisions of the top-level commands: find, canvas info,
//! unwrap, undo, variables, export, verify, node operations and bundled
//! command bodies; the padding shorthand, layout direction, output paths and
//! the node ids that a render result records.

use vstd::prelude::*;
use crate::cmds::{opt_string_text, text_or};
use crate::json::{js_string, js_string_array, json_quote, json_string_array, texts_of};
use crate::jsgen::opt_text;
use crate::parsing::{base64_decoded, base64_error_text, string_array_error_text, decode_base64, field_of, take_field, parse_json, parse_string_array, parsed_json, parsed_string_array};
use crate::text::{contains_text, lemma_contains_mid, is_prefix, bool_str, bool_text, lowercase, lowercased, same_text, uppercase, uppercased};

verus! {

/// Script that lists the nodes whose lower-cased name contains `lowered`.
pub open spec fn find_lowered_js(lowered: Seq<char>) -> Seq<char> {
    "return figma.currentPage.findAll(n => n.name.toLowerCase().includes("@
        + json_quote(lowered)
        + ")).map(n => ({ id: n.id, name: n.name, type: n.type }))"@
}

/// Script for `find` once the query is lower-cased.
pub fn find_lowered(lowered: &str) -> (script: String)
    ensures
        script@ == find_lowered_js(lowered@),
{
    let q = js_string(lowered);
    let mut s = String::from_str("return figma.currentPage.findAll(n => n.name.toLowerCase().includes(");
    s.append(q.as_str());
    s.append(")).map(n => ({ id: n.id, name: n.name, type: n.type }))");
    s
}

/// Script for `find`: nodes whose name, lower-cased, contains the lower-cased
/// query.
pub fn find_script(query: &str) -> (script: String)
    ensures
        script@ == find_lowered_js(lowercased(query@)),
{
    let lowered = lowercase(query);
    find_lowered(lowered.as_str())
}

/// Script that reports the page name, selection size and child count.
pub open spec fn canvas_info_js() -> Seq<char> {
    "return { page: figma.currentPage.name, selection: figma.currentPage.selection.length, children: figma.currentPage.children.length }"@
}

/// Script for `canvas info`.
pub fn canvas_info_script() -> (script: &'static str)
    ensures
        script@ == canvas_info_js(),
{
    "return { page: figma.currentPage.name, selection: figma.currentPage.selection.length, children: figma.currentPage.children.length }"
}

/// Script that lifts a wrapper's children into its parent (keeping their
/// page position) and deletes the wrapper unless `keep_wrapper`.
pub open spec fn unwrap_js(node_id: Seq<char>, keep_wrapper: bool) -> Seq<char> {
    r#"return (async () => {
  const n = await figma.getNodeByIdAsync("#@
        + json_quote(node_id)
        + r#");
  if (!n) throw new Error('Node not found: ' + "#@
        + json_quote(node_id)
        + r#");
  if (!('children' in n) || !Array.isArray(n.children)) return 'Node ' + n.id + ' has no children to unwrap';
  const parent = n.parent;
  if (!parent) throw new Error('Wrapper has no parent');
  const isOnPage = parent.type === 'PAGE';
  const offX = isOnPage ? n.x : 0, offY = isOnPage ? n.y : 0;
  const moved = [];
  for (const c of n.children.slice()) {
    const cx = c.x, cy = c.y;
    parent.appendChild(c);
    if (isOnPage && 'x' in c) { c.x = offX + cx; c.y = offY + cy; }
    moved.push(c.id);
  }
  const wid = n.id, wname = n.name;
  if (!"#@
        + bool_text(keep_wrapper)
        + r#") n.remove();
  return { unwrapped: wid, name: wname, children: moved, deletedWrapper: !"#@
        + bool_text(keep_wrapper)
        + r#" };
})()"#@
}

/// Script for `unwrap`.
pub fn unwrap_script(node_id: &str, keep_wrapper: bool) -> (script: String)
    ensures
        script@ == unwrap_js(node_id@, keep_wrapper),
{
    let id = js_string(node_id);
    let keep = bool_str(keep_wrapper);
    let mut s = String::from_str(r#"return (async () => {
  const n = await figma.getNodeByIdAsync("#);
    s.append(id.as_str());
    s.append(r#");
  if (!n) throw new Error('Node not found: ' + "#);
    s.append(id.as_str());
    s.append(r#");
  if (!('children' in n) || !Array.isArray(n.children)) return 'Node ' + n.id + ' has no children to unwrap';
  const parent = n.parent;
  if (!parent) throw new Error('Wrapper has no parent');
  const isOnPage = parent.type === 'PAGE';
  const offX = isOnPage ? n.x : 0, offY = isOnPage ? n.y : 0;
  const moved = [];
  for (const c of n.children.slice()) {
    const cx = c.x, cy = c.y;
    parent.appendChild(c);
    if (isOnPage && 'x' in c) { c.x = offX + cx; c.y = offY + cy; }
    moved.push(c.id);
  }
  const wid = n.id, wname = n.name;
  if (!"#);
    s.append(keep);
    s.append(r#") n.remove();
  return { unwrapped: wid, name: wname, children: moved, deletedWrapper: !"#);
    s.append(keep);
    s.append(r#" };
})()"#);
    s
}

/// Script that removes the nodes of the JSON id list `ids_json` that still
/// exist.
pub open spec fn undo_js(ids_json: Seq<char>) -> Seq<char> {
    "return (async () => { let removed = 0; const names = []; for (const id of "@
        + ids_json
        + ") { const n = await figma.getNodeByIdAsync(id); if (n && !n.removed) { names.push(n.name); n.remove(); removed++; } } return { removed, names }; })()"@
}

/// Script for `undo`; `ids_json` is the recorded id list as JSON text.
pub fn undo_script(ids_json: &str) -> (script: String)
    ensures
        script@ == undo_js(ids_json@),
{
    let mut s = String::from_str("return (async () => { let removed = 0; const names = []; for (const id of ");
    s.append(ids_json);
    s.append(") { const n = await figma.getNodeByIdAsync(id); if (n && !n.removed) { names.push(n.name); n.remove(); removed++; } } return { removed, names }; })()");
    s
}

/// Script that lists the variable collections with their modes and
/// variables.
pub open spec fn var_list_js() -> Seq<char> {
    r#"return (async () => {
  const cols = await figma.variables.getLocalVariableCollectionsAsync();
  const vars = await figma.variables.getLocalVariablesAsync();
  return cols.map(c => ({
    collection: c.name,
    modes: c.modes.map(m => m.name),
    variables: vars.filter(v => v.variableCollectionId === c.id).map(v => ({ name: v.name, type: v.resolvedType }))
  }));
})()"#@
}

/// Script for `var list`.
pub fn var_list_script() -> (script: &'static str)
    ensures
        script@ == var_list_js(),
{
    r#"return (async () => {
  const cols = await figma.variables.getLocalVariableCollectionsAsync();
  const vars = await figma.variables.getLocalVariablesAsync();
  return cols.map(c => ({
    collection: c.name,
    modes: c.modes.map(m => m.name),
    variables: vars.filter(v => v.variableCollectionId === c.id).map(v => ({ name: v.name, type: v.resolvedType }))
  }));
})()"#
}

/// Script that deletes every variable and collection, or only those of
/// collections whose name contains `collection`.
pub open spec fn var_delete_all_js(collection: Option<Seq<char>>) -> Seq<char> {
    let filter = match collection {
        Some(name) => "cols = cols.filter(c => c.name.includes("@
        + json_quote(name)
        + "));"@,
        None => Seq::empty(),
    };
    "return (async () => { let cols = await figma.variables.getLocalVariableCollectionsAsync(); "@
        + filter
        + " let deleted = 0; for (const col of cols) { const vars = await figma.variables.getLocalVariablesAsync(); for (const v of vars.filter(v => v.variableCollectionId === col.id)) { v.remove(); deleted++; } col.remove(); } return { deletedVariables: deleted, deletedCollections: cols.length }; })()"@
}

/// Script for `var delete-all`.
pub fn var_delete_all_script(collection: Option<&str>) -> (script: String)
    ensures
        script@ == var_delete_all_js(opt_text(collection)),
{
    let filter = match collection {
        Some(name) => {
            let n = js_string(name);
            let mut f = String::from_str("cols = cols.filter(c => c.name.includes(");
            f.append(n.as_str());
            f.append("));");
            f
        },
        None => String::new(),
    };
    let mut s = String::from_str("return (async () => { let cols = await figma.variables.getLocalVariableCollectionsAsync(); ");
    s.append(filter.as_str());
    s.append(" let deleted = 0; for (const col of cols) { const vars = await figma.variables.getLocalVariablesAsync(); for (const v of vars.filter(v => v.variableCollectionId === col.id)) { v.remove(); deleted++; } col.remove(); } return { deletedVariables: deleted, deletedCollections: cols.length }; })()");
    s
}

/// `node = …` lookup of the node with the id, or of the first selected node.
pub open spec fn node_lookup_js(node_id: Option<Seq<char>>) -> Seq<char> {
    match node_id {
        Some(id) => "node = await figma.getNodeByIdAsync("@
        + json_quote(id)
        + ");"@,
        None => "const sel = figma.currentPage.selection; node = sel.length > 0 ? sel[0] : null;"@,
    }
}

fn node_lookup(node_id: Option<&str>) -> (r: String)
    ensures
        r@ == node_lookup_js(opt_text(node_id)),
{
    match node_id {
        Some(node) => {
            let id = js_string(node);
            let mut l = String::from_str("node = await figma.getNodeByIdAsync(");
            l.append(id.as_str());
            l.append(");");
            l
        },
        None => String::from_str("const sel = figma.currentPage.selection; node = sel.length > 0 ? sel[0] : null;"),
    }
}

/// Script that exports a node in the upper-cased format `fmt` (raster
/// formats at `scale`) and returns its bytes in base64.
pub open spec fn export_js(fmt: Seq<char>, node_id: Option<Seq<char>>, scale: Seq<char>) -> Seq<char> {
    let node_lookup = node_lookup_js(node_id);
    let settings = if fmt == "PNG"@ || fmt == "JPG"@ {
        "{ format: "@
        + json_quote(fmt)
        + ", constraint: { type: 'SCALE', value: "@
        + scale
        + " } }"@
    } else {
        "{ format: "@
        + json_quote(fmt)
        + " }"@
    };
    r#"return (async () => {
  let node;
  "#@
        + node_lookup
        + r#"
  if (!node) return { error: 'No node selected or found' };
  if (!('exportAsync' in node)) return { error: 'Node cannot be exported' };
  const bytes = await node.exportAsync("#@
        + settings
        + r#");
  return { id: node.id, name: node.name, base64: figma.base64Encode(bytes) };
})()"#@
}

/// Law: `export` scales raster formats and only them: for `PNG` and `JPG`
/// the node is exported with the `SCALE` constraint at `scale`; any other
/// format is exported with its format alone.
pub proof fn lemma_export_scales_raster_only(fmt: Seq<char>, node_id: Option<Seq<char>>, scale: Seq<char>)
    ensures
        (fmt == "PNG"@ || fmt == "JPG"@) ==> contains_text(
            export_js(fmt, node_id, scale),
            "exportAsync({ format: "@ + json_quote(fmt) + ", constraint: { type: 'SCALE', value: "@ + scale + " } })"@,
        ),
        !(fmt == "PNG"@ || fmt == "JPG"@) ==> contains_text(
            export_js(fmt, node_id, scale),
            "exportAsync({ format: "@ + json_quote(fmt) + " })"@,
        ),
{
    reveal_strlit(r#"
  if (!node) return { error: 'No node selected or found' };
  if (!('exportAsync' in node)) return { error: 'Node cannot be exported' };
  const bytes = await node.exportAsync("#);
    reveal_strlit(r#"
  if (!node) return { error: 'No node selected or found' };
  if (!('exportAsync' in node)) return { error: 'Node cannot be exported' };
  const bytes = await node."#);
    reveal_strlit("exportAsync(");
    reveal_strlit(r#");
  return { id: node.id, name: node.name, base64: figma.base64Encode(bytes) };
})()"#);
    reveal_strlit(r#";
  return { id: node.id, name: node.name, base64: figma.base64Encode(bytes) };
})()"#);
    reveal_strlit(")");
    reveal_strlit("{ format: ");
    reveal_strlit(", constraint: { type: 'SCALE', value: ");
    reveal_strlit(" } }");
    reveal_strlit(" }");
    reveal_strlit(" } })");
    reveal_strlit(" })");
    assert(r#"
  if (!node) return { error: 'No node selected or found' };
  if (!('exportAsync' in node)) return { error: 'Node cannot be exported' };
  const bytes = await node.exportAsync("#@ =~= r#"
  if (!node) return { error: 'No node selected or found' };
  if (!('exportAsync' in node)) return { error: 'Node cannot be exported' };
  const bytes = await node."#@ + "exportAsync("@);
    assert(r#");
  return { id: node.id, name: node.name, base64: figma.base64Encode(bytes) };
})()"#@ =~= ")"@ + r#";
  return { id: node.id, name: node.name, base64: figma.base64Encode(bytes) };
})()"#@);
    let open = r#"return (async () => {
  let node;
  "#@ + node_lookup_js(node_id) + r#"
  if (!node) return { error: 'No node selected or found' };
  if (!('exportAsync' in node)) return { error: 'Node cannot be exported' };
  const bytes = await node."#@;
    let close = r#";
  return { id: node.id, name: node.name, base64: figma.base64Encode(bytes) };
})()"#@;
    let s = export_js(fmt, node_id, scale);
    if fmt == "PNG"@ || fmt == "JPG"@ {
        let settings = "{ format: "@ + json_quote(fmt) + ", constraint: { type: 'SCALE', value: "@ + scale + " } }"@;
        let p = "exportAsync("@ + settings + ")"@;
        assert(p =~= "exportAsync({ format: "@ + json_quote(fmt) + ", constraint: { type: 'SCALE', value: "@ + scale + " } })"@) by {
            reveal_strlit("exportAsync({ format: ");
            assert("exportAsync({ format: "@ =~= "exportAsync("@ + "{ format: "@);
            assert(" } })"@ =~= " } }"@ + ")"@);
        }
        assert(s =~= open + p + close);
        lemma_contains_mid(open, p, close);
    } else {
        let settings = "{ format: "@ + json_quote(fmt) + " }"@;
        let p = "exportAsync("@ + settings + ")"@;
        assert(p =~= "exportAsync({ format: "@ + json_quote(fmt) + " })"@) by {
            reveal_strlit("exportAsync({ format: ");
            assert("exportAsync({ format: "@ =~= "exportAsync("@ + "{ format: "@);
            assert(" })"@ =~= " }"@ + ")"@);
        }
        assert(s =~= open + p + close);
        lemma_contains_mid(open, p, close);
    }
}

/// Script for `export` once the format is upper-cased.
pub fn export_script_upper(fmt: &str, node_id: Option<&str>, scale: &str) -> (script: String)
    ensures
        script@ == export_js(fmt@, opt_text(node_id), scale@),
{
    let node_lookup = node_lookup(node_id);
    let fmt_j = js_string(fmt);
    let settings = if same_text(fmt, "PNG") || same_text(fmt, "JPG") {
        let mut t = String::from_str("{ format: ");
        t.append(fmt_j.as_str());
        t.append(", constraint: { type: 'SCALE', value: ");
        t.append(scale);
        t.append(" } }");
        t
    } else {
        let mut t = String::from_str("{ format: ");
        t.append(fmt_j.as_str());
        t.append(" }");
        t
    };
    let mut s = String::from_str(r#"return (async () => {
  let node;
  "#);
    s.append(node_lookup.as_str());
    s.append(r#"
  if (!node) return { error: 'No node selected or found' };
  if (!('exportAsync' in node)) return { error: 'Node cannot be exported' };
  const bytes = await node.exportAsync("#);
    s.append(settings.as_str());
    s.append(r#");
  return { id: node.id, name: node.name, base64: figma.base64Encode(bytes) };
})()"#);
    s
}

/// Script for `export`: the format is upper-cased, then as `export_js`.
pub fn export_script(format: &str, node_id: Option<&str>, scale: &str) -> (script: String)
    ensures
        script@ == export_js(uppercased(format@), opt_text(node_id), scale@),
{
    let fmt = uppercase(format);
    export_script_upper(fmt.as_str(), node_id, scale)
}

/// Script that screenshots a node (scaled to fit 2000px) as base64 PNG,
/// with a measurement tree when `measure`.
pub open spec fn verify_js(node_id: Option<Seq<char>>, measure: bool) -> Seq<char> {
    r#"(async () => {
  let node;
  "#@
        + node_lookup_js(node_id)
        + r#"
  if (!node) return { error: 'No node selected or found' };
  if (!('exportAsync' in node)) return { error: 'Node cannot be exported' };
  const w = node.width || 100, h = node.height || 100;
  let scale = 2; const maxDim = 2000; const maxNodeDim = Math.max(w, h);
  if (maxNodeDim * scale > maxDim) scale = maxDim / maxNodeDim;
  const bytes = await node.exportAsync({ format: 'PNG', constraint: { type: 'SCALE', value: scale } });
  const base64 = figma.base64Encode(bytes);
  let measure = null;
  if ("#@
        + bool_text(measure)
        + r#") {
    const walk = (n, depth) => {
      const m = { name: n.name, type: n.type, w: Math.round(n.width), h: Math.round(n.height),
        layout: n.layoutMode && n.layoutMode !== 'NONE' ? n.layoutMode : undefined,
        sizeH: n.layoutSizingHorizontal, sizeV: n.layoutSizingVertical };
      if (depth > 0 && 'children' in n && n.children.length) m.children = n.children.slice(0, 24).map(c => walk(c, depth - 1));
      return m;
    };
    measure = walk(node, 3);
  }
  return { name: node.name, id: node.id, width: Math.round(w*scale), height: Math.round(h*scale), scale, base64, measure };
})()"#@
}

/// Script for `verify`.
pub fn verify_script(node_id: Option<&str>, measure: bool) -> (script: String)
    ensures
        script@ == verify_js(opt_text(node_id), measure),
{
    let lookup = node_lookup(node_id);
    let measure_text = bool_str(measure);
    let mut s = String::from_str(r#"(async () => {
  let node;
  "#);
    s.append(lookup.as_str());
    s.append(r#"
  if (!node) return { error: 'No node selected or found' };
  if (!('exportAsync' in node)) return { error: 'Node cannot be exported' };
  const w = node.width || 100, h = node.height || 100;
  let scale = 2; const maxDim = 2000; const maxNodeDim = Math.max(w, h);
  if (maxNodeDim * scale > maxDim) scale = maxDim / maxNodeDim;
  const bytes = await node.exportAsync({ format: 'PNG', constraint: { type: 'SCALE', value: scale } });
  const base64 = figma.base64Encode(bytes);
  let measure = null;
  if ("#);
    s.append(measure_text);
    s.append(r#") {
    const walk = (n, depth) => {
      const m = { name: n.name, type: n.type, w: Math.round(n.width), h: Math.round(n.height),
        layout: n.layoutMode && n.layoutMode !== 'NONE' ? n.layoutMode : undefined,
        sizeH: n.layoutSizingHorizontal, sizeV: n.layoutSizingVertical };
      if (depth > 0 && 'children' in n && n.children.length) m.children = n.children.slice(0, 24).map(c => walk(c, depth - 1));
      return m;
    };
    measure = walk(node, 3);
  }
  return { name: node.name, id: node.id, width: Math.round(w*scale), height: Math.round(h*scale), scale, base64, measure };
})()"#);
    s
}

/// Script that turns the frames and groups with the given ids into components.
pub open spec fn to_component_js(node_ids: &[String]) -> Seq<char> {
    "return (async () => { const ids = "@
        + json_string_array(texts_of(node_ids@))
        + "; const out = []; for (const id of ids) { const n = await figma.getNodeByIdAsync(id); if (n && (n.type==='FRAME'||n.type==='GROUP')) { const c = figma.createComponentFromNode(n); out.push({id:c.id,name:c.name}); } } return out; })()"@
}

/// Script for `node to-component`.
pub fn to_component_script(node_ids: &[String]) -> (script: String)
    ensures
        script@ == to_component_js(node_ids),
{
    let ids = js_string_array(node_ids);
    let mut s = String::from_str("return (async () => { const ids = ");
    s.append(ids.as_str());
    s.append("; const out = []; for (const id of ids) { const n = await figma.getNodeByIdAsync(id); if (n && (n.type==='FRAME'||n.type==='GROUP')) { const c = figma.createComponentFromNode(n); out.push({id:c.id,name:c.name}); } } return out; })()");
    s
}

/// Script that deletes the nodes with the given ids.
pub open spec fn node_delete_js(node_ids: &[String]) -> Seq<char> {
    "return (async () => { const ids = "@
        + json_string_array(texts_of(node_ids@))
        + "; let deleted = 0; for (const id of ids) { const n = await figma.getNodeByIdAsync(id); if (n) { n.remove(); deleted++; } } return { deleted }; })()"@
}

/// Script for `node delete`.
pub fn node_delete_script(node_ids: &[String]) -> (script: String)
    ensures
        script@ == node_delete_js(node_ids),
{
    let ids = js_string_array(node_ids);
    let mut s = String::from_str("return (async () => { const ids = ");
    s.append(ids.as_str());
    s.append("; let deleted = 0; for (const id of ids) { const n = await figma.getNodeByIdAsync(id); if (n) { n.remove(); deleted++; } } return { deleted }; })()");
    s
}

/// A bundled command body run with `__args` bound to `args_json`.
pub open spec fn asset_js(args_json: Seq<char>, body: Seq<char>) -> Seq<char> {
    "(async () => { const __args = "@
        + args_json
        + "; "@
        + body
        + " })()"@
}

/// Script that runs a bundled command body (statements ending in `return …`)
/// with `__args` bound to the JSON text `args_json`.
pub fn asset_script(args_json: &str, body: &str) -> (script: String)
    ensures
        script@ == asset_js(args_json@, body@),
{
    let mut s = String::from_str("(async () => { const __args = ");
    s.append(args_json);
    s.append("; ");
    s.append(body);
    s.append(" })()");
    s
}

/// Top, right, bottom and left from one to four CSS-style values.
pub open spec fn css_sides_of<T>(v: T, r: Option<T>, b: Option<T>, l: Option<T>) -> (T, T, T, T) {
    match (r, b, l) {
        (None, _, _) => (v, v, v, v),
        (Some(r), None, _) => (v, r, v, r),
        (Some(r), Some(b), None) => (v, r, b, r),
        (Some(r), Some(b), Some(l)) => (v, r, b, l),
    }
}

/// Law: the padding shorthand reads like CSS: the first value is always the
/// top; the right side is the second value, or the top when there is none;
/// the bottom is the third value, or the top when there is none; the left
/// is the fourth value, or the right side when there is none.
pub proof fn lemma_css_sides_shorthand<T>(v: T, r: Option<T>, b: Option<T>, l: Option<T>)
    requires
        r is None ==> b is None && l is None,
        b is None ==> l is None,
    ensures
        css_sides_of(v, r, b, l).0 == v,
        css_sides_of(v, r, b, l).1 == match r { Some(x) => x, None => v },
        css_sides_of(v, r, b, l).2 == match b { Some(x) => x, None => v },
        css_sides_of(v, r, b, l).3 == match l { Some(x) => x, None => css_sides_of(v, r, b, l).1 },
{
}

/// CSS-style 1-4 values for `padding`: one value for all sides; two for
/// vertical and horizontal; three for top, horizontal, bottom; four in
/// order top, right, bottom, left.
pub fn css_sides<T: Copy>(v: T, r: Option<T>, b: Option<T>, l: Option<T>) -> (sides: (T, T, T, T))
    ensures
        sides == css_sides_of(v, r, b, l),
{
    match (r, b, l) {
        (None, _, _) => (v, v, v, v),
        (Some(r), None, _) => (v, r, v, r),
        (Some(r), Some(b), None) => (v, r, b, r),
        (Some(r), Some(b), Some(l)) => (v, r, b, l),
    }
}

/// The direction names that lay a batch out vertically.
pub open spec fn is_vertical_text(direction: Seq<char>) -> bool {
    direction == "col"@ || direction == "column"@ || direction == "vertical"@
}

/// Whether `render-batch --direction` asks for a vertical layout.
pub fn is_vertical(direction: &str) -> (r: bool)
    ensures
        r == is_vertical_text(direction@),
{
    same_text(direction, "col") || same_text(direction, "column") || same_text(direction, "vertical")
}

/// `id` with every `:` replaced by `-`.
pub open spec fn dashed(id: Seq<char>) -> Seq<char> {
    id.map_values(|c: char| if c == ':' { '-' } else { c })
}

/// A node id made safe for a file name: `:` becomes `-`.
pub fn dashed_id(id: &str) -> (r: String)
    ensures
        r@ == dashed(id@),
{
    let n = id.unicode_len();
    let mut s = String::new();
    let mut i: usize = 0;
    while i < n
        invariant
            n == id@.len(),
            i <= n,
            s@ == dashed(id@.take(i as int)),
        decreases n - i,
    {
        let c = id.get_char(i);
        let ghost before = s@;
        if c == ':' {
            s.append("-");
            proof { reveal_strlit("-"); }
        } else {
            s.append(id.substring_char(i, i + 1));
        }
        assert(id@.subrange(i as int, i + 1) =~= seq![c]);
        assert(dashed(id@.take(i + 1)) =~= dashed(id@.take(i as int)).push(if c == ':' { '-' } else { c }));
        i = i + 1;
    }
    assert(id@.take(n as int) =~= id@);
    s
}

/// Default output of `export`: `./export-<id>.<format lower-cased>`, the id
/// dashed (`node` when the result has none).
pub open spec fn export_path_js(id: Option<Seq<char>>, format: Seq<char>) -> Seq<char> {
    "./export-"@ + dashed(text_or(id, "node"@)) + "."@ + lowercased(format)
}

/// Default output path of `export`.
pub fn export_default_path(id: Option<&str>, format: &str) -> (r: String)
    ensures
        r@ == export_path_js(opt_text(id), format@),
{
    let raw: &str = match id {
        Some(s) => s,
        None => "node",
    };
    let mut s = String::from_str("./export-");
    s.append(dashed_id(raw).as_str());
    s.append(".");
    s.append(lowercase(format).as_str());
    s
}

/// Default screenshot path of `verify`: `/tmp/figma-verify-<id>.png`.
pub open spec fn verify_path_js(id: Option<Seq<char>>) -> Seq<char> {
    "/tmp/figma-verify-"@ + dashed(text_or(id, "node"@)) + ".png"@
}

/// Default screenshot path of `verify`.
pub fn verify_default_path(id: Option<&str>) -> (r: String)
    ensures
        r@ == verify_path_js(opt_text(id)),
{
    let raw: &str = match id {
        Some(s) => s,
        None => "node",
    };
    let mut s = String::from_str("/tmp/figma-verify-");
    s.append(dashed_id(raw).as_str());
    s.append(".png");
    s
}

/// A JSON value as the library reads it; numbers keep their text, objects
/// their entries in order.
#[derive(Debug)]
pub enum Json {
    Null,
    Bool(bool),
    Number(String),
    Str(String),
    Array(Vec<Json>),
    Object(Vec<(String, Json)>),
}

/// `id` has the shape of a Figma node id: non-empty text on both sides of
/// its first `:`.
pub open spec fn is_node_id(id: Seq<char>) -> bool {
    exists|k: int|
        0 < k < id.len() - 1 && #[trigger] id[k] == ':' && forall|j: int| 0 <= j < k ==> id[j] != ':'
}

/// Whether `id` has the shape of a Figma node id (`N:M`).
pub fn node_id_shaped(id: &str) -> (r: bool)
    ensures
        r == is_node_id(id@),
{
    let n = id.unicode_len();
    let mut i: usize = 0;
    while i < n
        invariant
            n == id@.len(),
            i <= n,
            forall|j: int| 0 <= j < i ==> id@[j] != ':',
        decreases n - i,
    {
        if id.get_char(i) == ':' {
            let r = 0 < i && i + 1 < n;
            proof {
                if !r {
                    assert forall|k: int| 0 < k < id@.len() - 1 && #[trigger] id@[k] == ':'
                        implies !(forall|j: int| 0 <= j < k ==> id@[j] != ':') by {
                        assert(k >= i);
                        assert(k != i);
                        assert(id@[i as int] == ':');
                    }
                }
            }
            return r;
        }
        i = i + 1;
    }
    false
}

/// The value of the first entry named `id`.
pub open spec fn id_entry(entries: Seq<(String, Json)>) -> Option<Json>
    decreases entries.len(),
{
    if entries.len() == 0 {
        None
    } else if entries[0].0@ == "id"@ {
        Some(entries[0].1)
    } else {
        id_entry(entries.drop_first())
    }
}

/// The object's own node id, when its `id` entry is a string shaped like one.
pub open spec fn own_node_id(entries: Seq<(String, Json)>) -> Seq<Seq<char>> {
    match id_entry(entries) {
        Some(Json::Str(s)) => if is_node_id(s@) {
            seq![s@]
        } else {
            Seq::empty()
        },
        _ => Seq::empty(),
    }
}

/// The node ids found under `id` keys anywhere in `v`: an object's own id
/// first, then those of its values in order; an array's in order.
pub open spec fn node_ids_in(v: Json) -> Seq<Seq<char>>
    decreases v,
{
    match v {
        Json::Object(entries) => own_node_id(entries@) + node_ids_in_entries(entries@),
        Json::Array(items) => node_ids_in_items(items@),
        _ => Seq::empty(),
    }
}

/// The node ids under the values of `entries`, in order.
pub open spec fn node_ids_in_entries(entries: Seq<(String, Json)>) -> Seq<Seq<char>>
    decreases entries,
{
    if entries.len() == 0 {
        Seq::empty()
    } else {
        node_ids_in_entries(entries.subrange(0, entries.len() - 1)) + node_ids_in(entries[entries.len() - 1].1)
    }
}

/// The node ids under `items`, in order.
pub open spec fn node_ids_in_items(items: Seq<Json>) -> Seq<Seq<char>>
    decreases items,
{
    if items.len() == 0 {
        Seq::empty()
    } else {
        node_ids_in_items(items.subrange(0, items.len() - 1)) + node_ids_in(items[items.len() - 1])
    }
}


fn find_id_entry(entries: &Vec<(String, Json)>) -> (r: Option<&Json>)
    ensures
        match id_entry(entries@) {
            Some(j) => r == Some(&j),
            None => r is None,
        },
{
    let n = entries.len();
    let mut i: usize = 0;
    assert(entries@.skip(0) =~= entries@);
    while i < n
        invariant
            n == entries@.len(),
            i <= n,
            id_entry(entries@) == id_entry(entries@.skip(i as int)),
        decreases n - i,
    {
        assert(entries@.skip(i as int).drop_first() =~= entries@.skip(i + 1));
        if same_text(entries[i].0.as_str(), "id") {
            return Some(&entries[i].1);
        }
        i = i + 1;
    }
    None
}

/// Recursively collect Figma node ids (strings matching N:M) under "id" keys.
pub fn collect_node_ids(v: &Json, out: &mut Vec<String>)
    ensures
        texts_of(final(out)@) == texts_of(old(out)@) + node_ids_in(*v),
    decreases v,
{
    let ghost start = texts_of(out@);
    match v {
        Json::Object(entries) => {
            if let Some(Json::Str(id)) = find_id_entry(entries) {
                if node_id_shaped(id.as_str()) {
                    let ghost before = out@;
                    out.push(id.clone());
                    assert(texts_of(out@) =~= texts_of(before).push(id@));
                }
            }
            let ghost own = own_node_id(entries@);
            assert(texts_of(out@) =~= start + own);
            let n = entries.len();
            let mut i: usize = 0;
            assert(entries@.subrange(0, 0) =~= Seq::<(String, Json)>::empty());
            while i < n
                invariant
                    n == entries@.len(),
                    i <= n,
                    *v == Json::Object(*entries),
                    texts_of(out@) == start + own + node_ids_in_entries(entries@.subrange(0, i as int)),
                decreases n - i,
            {
                let ghost before = texts_of(out@);
                proof {
                    let ghost ev: Vec<(String, Json)> = *entries;
                    assert(decreases_to!(*v => (*v)->Object_0));
                    assert(decreases_to!(ev => ev@));
                    assert(decreases_to!(ev@ => ev@[i as int]));
                    assert(decreases_to!(ev@[i as int] => ev@[i as int].1));
                    assert(decreases_to!(*v => ev@[i as int].1));
                }
                collect_node_ids(&entries[i].1, out);
                assert(entries@.subrange(0, i + 1).subrange(0, i as int) =~= entries@.subrange(0, i as int));
                assert(texts_of(out@) =~= start + own + node_ids_in_entries(entries@.subrange(0, i + 1)));
                i = i + 1;
            }
            assert(entries@.subrange(0, n as int) =~= entries@);
        },
        Json::Array(items) => {
            let n = items.len();
            let mut i: usize = 0;
            assert(items@.subrange(0, 0) =~= Seq::<Json>::empty());
            assert(texts_of(out@) =~= start + Seq::<Seq<char>>::empty());
            while i < n
                invariant
                    n == items@.len(),
                    i <= n,
                    *v == Json::Array(*items),
                    texts_of(out@) == start + node_ids_in_items(items@.subrange(0, i as int)),
                decreases n - i,
            {
                proof {
                    let ghost iv: Vec<Json> = *items;
                    assert(decreases_to!(*v => (*v)->Array_0));
                    assert(decreases_to!(iv => iv@));
                    assert(decreases_to!(iv@ => iv@[i as int]));
                    assert(decreases_to!(*v => iv@[i as int]));
                }
                collect_node_ids(&items[i], out);
                assert(items@.subrange(0, i + 1).subrange(0, i as int) =~= items@.subrange(0, i as int));
                assert(texts_of(out@) =~= start + node_ids_in_items(items@.subrange(0, i + 1)));
                i = i + 1;
            }
            assert(items@.subrange(0, n as int) =~= items@);
        },
        _ => {
            assert(texts_of(out@) =~= start + Seq::<Seq<char>>::empty());
        },
    }
}

/// The render record `{"ids":[…]}` kept for `undo`.
pub open spec fn render_record_js(ids: Seq<Seq<char>>) -> Seq<char> {
    "{\"ids\":"@ + json_string_array(ids) + "}"@
}

/// The node ids that a command result holds, in the order met.
pub fn result_node_ids(result: &Json) -> (ids: Vec<String>)
    ensures
        texts_of(ids@) == node_ids_in(*result),
{
    let mut ids: Vec<String> = Vec::new();
    assert(texts_of(ids@) =~= Seq::<Seq<char>>::empty());
    collect_node_ids(result, &mut ids);
    ids
}

/// The record of a render for `undo`, or `None` when the result holds no
/// node id (nothing is recorded then).
pub fn render_record(result: &Json) -> (r: Option<String>)
    ensures
        node_ids_in(*result).len() == 0 ==> r is None,
        node_ids_in(*result).len() > 0 ==> (r matches Some(t) && t@ == render_record_js(node_ids_in(*result))),
{
    let ids = result_node_ids(result);
    if ids.len() == 0 {
        return None;
    }
    let mut s = String::from_str("{\"ids\":");
    s.append(js_string_array(ids.as_slice()).as_str());
    s.append("}");
    Some(s)
}


/// Law: a dashed id has the length of the id and holds no `:`.
pub proof fn lemma_dashed_has_no_colon(id: Seq<char>)
    ensures
        dashed(id).len() == id.len(),
        forall|i: int| 0 <= i < dashed(id).len() ==> #[trigger] dashed(id)[i] != ':',
{
}

/// Every id collected from `v` (or from a list of entries or items) is
/// shaped like a node id.
proof fn lemma_node_ids_shaped(v: Json)
    ensures
        forall|i: int| 0 <= i < node_ids_in(v).len() ==> is_node_id(#[trigger] node_ids_in(v)[i]),
    decreases v,
{
    match v {
        Json::Object(entries) => {
            lemma_entries_ids_shaped(entries@);
            let own = own_node_id(entries@);
            let rest = node_ids_in_entries(entries@);
            assert forall|i: int| 0 <= i < node_ids_in(v).len() implies is_node_id(#[trigger] node_ids_in(v)[i]) by {
                if i < own.len() {
                    assert(node_ids_in(v)[i] == own[i]);
                    match id_entry(entries@) {
                        Some(Json::Str(t)) => {
                            assert(is_node_id(t@));
                            assert(own[i] == t@);
                        },
                        _ => {
                            assert(own.len() == 0);
                        },
                    }
                } else {
                    assert(node_ids_in(v)[i] == rest[i - own.len()]);
                }
            }
        },
        Json::Array(items) => {
            lemma_items_ids_shaped(items@);
            assert(node_ids_in(v) == node_ids_in_items(items@));
            assert forall|i: int| 0 <= i < node_ids_in(v).len() implies is_node_id(#[trigger] node_ids_in(v)[i]) by {
                assert(node_ids_in(v)[i] == node_ids_in_items(items@)[i]);
            }
        },
        _ => {
            assert(node_ids_in(v).len() == 0);
        },
    }
}

proof fn lemma_entries_ids_shaped(entries: Seq<(String, Json)>)
    ensures
        forall|i: int| 0 <= i < node_ids_in_entries(entries).len() ==> is_node_id(#[trigger] node_ids_in_entries(entries)[i]),
    decreases entries,
{
    if entries.len() > 0 {
        let init = entries.subrange(0, entries.len() - 1);
        let last = entries[entries.len() - 1].1;
        lemma_entries_ids_shaped(init);
        assert(decreases_to!(entries => entries[entries.len() - 1]));
        assert(decreases_to!(entries[entries.len() - 1] => entries[entries.len() - 1].1));
        lemma_node_ids_shaped(last);
        let a = node_ids_in_entries(init);
        let b = node_ids_in(last);
        assert forall|i: int| 0 <= i < node_ids_in_entries(entries).len() implies is_node_id(#[trigger] node_ids_in_entries(entries)[i]) by {
            if i < a.len() {
                assert(node_ids_in_entries(entries)[i] == a[i]);
            } else {
                assert(node_ids_in_entries(entries)[i] == b[i - a.len()]);
            }
        }
    }
}

proof fn lemma_items_ids_shaped(items: Seq<Json>)
    ensures
        forall|i: int| 0 <= i < node_ids_in_items(items).len() ==> is_node_id(#[trigger] node_ids_in_items(items)[i]),
    decreases items,
{
    if items.len() > 0 {
        let init = items.subrange(0, items.len() - 1);
        let last = items[items.len() - 1];
        lemma_items_ids_shaped(init);
        lemma_node_ids_shaped(last);
        let a = node_ids_in_items(init);
        let b = node_ids_in(last);
        assert forall|i: int| 0 <= i < node_ids_in_items(items).len() implies is_node_id(#[trigger] node_ids_in_items(items)[i]) by {
            if i < a.len() {
                assert(node_ids_in_items(items)[i] == a[i]);
            } else {
                assert(node_ids_in_items(items)[i] == b[i - a.len()]);
            }
        }
    }
}

/// Law: every id that a render records for `undo` is shaped like a node id
/// (`N:M`, both sides non-empty).
pub proof fn lemma_recorded_ids_are_node_ids(result: Json)
    ensures
        forall|i: int| 0 <= i < node_ids_in(result).len() ==> is_node_id(#[trigger] node_ids_in(result)[i]),
{
    lemma_node_ids_shaped(result);
}


/// The text of an optional text, or the empty text.
pub open spec fn text_or_empty(o: Option<Seq<char>>) -> Seq<char> {
    match o {
        Some(t) => t,
        None => Seq::empty(),
    }
}

/// What an image reply of the plugin comes to: with an `error` the command
/// fails with that text; otherwise the image's `base64` (empty when absent)
/// is decoded and saved at the chosen path (`save`, else `default_path`); an
/// undecodable image fails with `what` followed by the decoder's message.
pub open spec fn image_file_ok(
    error: Option<Seq<char>>,
    b64: Option<Seq<char>>,
    save: Option<Seq<char>>,
    default_path: Seq<char>,
    what: Seq<char>,
    r: Result<(String, Vec<u8>), String>,
) -> bool {
    match error {
        Some(e) => r matches Err(m) && m@ == e,
        None => match base64_decoded(text_or_empty(b64)) {
            Some(bytes) => r matches Ok((p, v)) && v@ == bytes && p@ == text_or(save, default_path),
            None => r matches Err(m) && m@ == what + base64_error_text(text_or_empty(b64)),
        },
    }
}

fn image_file(error: Option<&str>, b64: Option<&str>, save: Option<&str>, default_path: String, what: &str) -> (r: Result<(String, Vec<u8>), String>)
    ensures
        image_file_ok(opt_text(error), opt_text(b64), opt_text(save), default_path@, what@, r),
{
    if let Some(e) = error {
        return Err(String::from_str(e));
    }
    let text: &str = match b64 {
        Some(t) => t,
        None => "",
    };
    proof {
        reveal_strlit("");
        assert(""@ =~= Seq::<char>::empty());
    }
    match decode_base64(text) {
        Ok(bytes) => {
            let path = match save {
                Some(p) => String::from_str(p),
                None => default_path,
            };
            Ok((path, bytes))
        },
        Err(msg) => {
            let mut m = String::from_str(what);
            m.append(msg.as_str());
            Err(m)
        },
    }
}

/// The file that `verify` writes from the plugin's reply: the path and the
/// PNG bytes, or the error to report.
pub fn screenshot_file(error: Option<&str>, b64: Option<&str>, id: Option<&str>, save: Option<&str>) -> (r: Result<(String, Vec<u8>), String>)
    ensures
        image_file_ok(opt_text(error), opt_text(b64), opt_text(save), verify_path_js(opt_text(id)), "decode screenshot: "@, r),
{
    image_file(error, b64, save, verify_default_path(id), "decode screenshot: ")
}

/// The file that `export` writes from the plugin's reply: the path and the
/// exported bytes, or the error to report.
pub fn export_file(error: Option<&str>, b64: Option<&str>, id: Option<&str>, output: Option<&str>, format: &str) -> (r: Result<(String, Vec<u8>), String>)
    ensures
        image_file_ok(opt_text(error), opt_text(b64), opt_text(output), export_path_js(opt_text(id), format@), "decode export: "@, r),
{
    image_file(error, b64, output, export_default_path(id, format), "decode export: ")
}

/// The JSX strings of `render-batch`'s argument, which must be a JSON array
/// of strings; otherwise the error names the argument and gives serde_json's
/// message.
pub fn render_batch_jsx(json_array: &str) -> (r: Result<Vec<String>, String>)
    ensures
        match parsed_string_array(json_array@) {
            Some(a) => r matches Ok(v) && texts_of(v@) == a,
            None => r matches Err(m) && m@ == "json_array must be a JSON array of JSX strings: "@
                + string_array_error_text(json_array@),
        },
{
    match parse_string_array(json_array) {
        Ok(v) => Ok(v),
        Err(e) => {
            let prefix = "json_array must be a JSON array of JSX strings: ";
            let mut m = String::from_str(prefix);
            m.append(e.as_str());
            Err(m)
        },
    }
}

/// `r` is the ids that `undo` removes: the record's `ids` field, or an empty
/// list.
pub open spec fn undo_ids_of(record: Option<Json>, r: Json) -> bool {
    match record {
        Some(j) => match field_of(j, "ids"@) {
            Some(ids) => r == ids,
            None => r matches Json::Array(v) && v@.len() == 0,
        },
        None => r matches Json::Array(v) && v@.len() == 0,
    }
}

/// The `ids` field of the render record, or an empty list.
pub fn undo_ids(record: Json) -> (r: Json)
    ensures
        undo_ids_of(Some(record), r),
{
    let ghost whole = record;
    match record {
        Json::Object(mut entries) => match take_field(&mut entries, "ids") {
            Some(ids) => ids,
            None => Json::Array(Vec::new()),
        },
        _ => Json::Array(Vec::new()),
    }
}

/// The ids that `undo` removes, read from the text of the render record (an
/// empty list where the text is not JSON).
pub fn undo_ids_in(record_text: &str) -> (r: Json)
    ensures
        undo_ids_of(parsed_json(record_text@), r),
{
    match parse_json(record_text) {
        Some(j) => undo_ids(j),
        None => Json::Array(Vec::new()),
    }
}

/// How many times `connect` asks the daemon whether the plugin is there.
pub const CONNECT_ATTEMPTS: u32 = 30;

/// What `connect` does after one look at the daemon's health.
#[derive(PartialEq, Eq, Structural, Debug, Clone, Copy)]
pub enum ConnectStep {
    /// The plugin is connected.
    Connected,
    /// Wait and look again.
    Wait,
    /// Stop waiting: the plugin did not connect.
    GiveUp,
}

/// The step after look number `attempt` (from 0), where `plugin` is the
/// health's `plugin` flag (`None` when the daemon did not answer or gave no
/// flag).
pub open spec fn connect_step_of(attempt: u32, plugin: Option<bool>) -> ConnectStep {
    if plugin == Some(true) {
        ConnectStep::Connected
    } else if attempt + 1 < CONNECT_ATTEMPTS {
        ConnectStep::Wait
    } else {
        ConnectStep::GiveUp
    }
}

/// Decides whether `connect` has found the plugin, looks again, or gives up.
pub fn connect_step(attempt: u32, plugin: Option<bool>) -> (s: ConnectStep)
    ensures
        s == connect_step_of(attempt, plugin),
{
    if plugin == Some(true) {
        ConnectStep::Connected
    } else if attempt < CONNECT_ATTEMPTS - 1 {
        ConnectStep::Wait
    } else {
        ConnectStep::GiveUp
    }
}

/// The statements of the script built from these pieces.
proof fn lemma_unwrap_layout(node_id: Seq<char>, keep_wrapper: bool)
    ensures
        contains_text(unwrap_js(node_id, keep_wrapper), "figma.getNodeByIdAsync("@ + json_quote(node_id) + ")"@),
        contains_text(unwrap_js(node_id, keep_wrapper), "if (!"@ + bool_text(keep_wrapper) + ") n.remove();"@),
{
    assert(contains_text(unwrap_js(node_id, keep_wrapper), "figma.getNodeByIdAsync("@ + json_quote(node_id) + ")"@)) by {
        reveal_strlit(" };\n})()");
        reveal_strlit(")");
        reveal_strlit(") n.remove();\n  return { unwrapped: wid, name: wname, children: moved, deletedWrapper: !");
        reveal_strlit(");\n  if (!('children' in n) || !Array.isArray(n.children)) return 'Node ' + n.id + ' has no children to unwrap';\n  const parent = n.parent;\n  if (!parent) throw new Error('Wrapper has no parent');\n  const isOnPage = parent.type === 'PAGE';\n  const offX = isOnPage ? n.x : 0, offY = isOnPage ? n.y : 0;\n  const moved = [];\n  for (const c of n.children.slice()) {\n    const cx = c.x, cy = c.y;\n    parent.appendChild(c);\n    if (isOnPage && 'x' in c) { c.x = offX + cx; c.y = offY + cy; }\n    moved.push(c.id);\n  }\n  const wid = n.id, wname = n.name;\n  if (!");
        reveal_strlit(");\n  if (!n) throw new Error('Node not found: ' + ");
        reveal_strlit(";\n  if (!n) throw new Error('Node not found: ' + ");
        reveal_strlit("figma.getNodeByIdAsync(");
        reveal_strlit("return (async () => {\n  const n = await ");
        reveal_strlit("return (async () => {\n  const n = await figma.getNodeByIdAsync(");
        assert("return (async () => {\n  const n = await figma.getNodeByIdAsync("@ =~= "return (async () => {\n  const n = await "@ + "figma.getNodeByIdAsync("@);
        assert(");\n  if (!n) throw new Error('Node not found: ' + "@ =~= ")"@ + ";\n  if (!n) throw new Error('Node not found: ' + "@);
        let a = "return (async () => {\n  const n = await "@;
        let p = "figma.getNodeByIdAsync("@ + json_quote(node_id) + ")"@;
        let c = ";\n  if (!n) throw new Error('Node not found: ' + "@ + json_quote(node_id) + ");\n  if (!('children' in n) || !Array.isArray(n.children)) return 'Node ' + n.id + ' has no children to unwrap';\n  const parent = n.parent;\n  if (!parent) throw new Error('Wrapper has no parent');\n  const isOnPage = parent.type === 'PAGE';\n  const offX = isOnPage ? n.x : 0, offY = isOnPage ? n.y : 0;\n  const moved = [];\n  for (const c of n.children.slice()) {\n    const cx = c.x, cy = c.y;\n    parent.appendChild(c);\n    if (isOnPage && 'x' in c) { c.x = offX + cx; c.y = offY + cy; }\n    moved.push(c.id);\n  }\n  const wid = n.id, wname = n.name;\n  if (!"@ + bool_text(keep_wrapper) + ") n.remove();\n  return { unwrapped: wid, name: wname, children: moved, deletedWrapper: !"@ + bool_text(keep_wrapper) + " };\n})()"@;
        assert(unwrap_js(node_id, keep_wrapper) =~= a + p + c);
        lemma_contains_mid(a, p, c);
    }
    assert(contains_text(unwrap_js(node_id, keep_wrapper), "if (!"@ + bool_text(keep_wrapper) + ") n.remove();"@)) by {
        reveal_strlit("\n  return { unwrapped: wid, name: wname, children: moved, deletedWrapper: !");
        reveal_strlit(" };\n})()");
        reveal_strlit(") n.remove();");
        reveal_strlit(") n.remove();\n  return { unwrapped: wid, name: wname, children: moved, deletedWrapper: !");
        reveal_strlit(");\n  if (!('children' in n) || !Array.isArray(n.children)) return 'Node ' + n.id + ' has no children to unwrap';\n  const parent = n.parent;\n  if (!parent) throw new Error('Wrapper has no parent');\n  const isOnPage = parent.type === 'PAGE';\n  const offX = isOnPage ? n.x : 0, offY = isOnPage ? n.y : 0;\n  const moved = [];\n  for (const c of n.children.slice()) {\n    const cx = c.x, cy = c.y;\n    parent.appendChild(c);\n    if (isOnPage && 'x' in c) { c.x = offX + cx; c.y = offY + cy; }\n    moved.push(c.id);\n  }\n  const wid = n.id, wname = n.name;\n  ");
        reveal_strlit(");\n  if (!('children' in n) || !Array.isArray(n.children)) return 'Node ' + n.id + ' has no children to unwrap';\n  const parent = n.parent;\n  if (!parent) throw new Error('Wrapper has no parent');\n  const isOnPage = parent.type === 'PAGE';\n  const offX = isOnPage ? n.x : 0, offY = isOnPage ? n.y : 0;\n  const moved = [];\n  for (const c of n.children.slice()) {\n    const cx = c.x, cy = c.y;\n    parent.appendChild(c);\n    if (isOnPage && 'x' in c) { c.x = offX + cx; c.y = offY + cy; }\n    moved.push(c.id);\n  }\n  const wid = n.id, wname = n.name;\n  if (!");
        reveal_strlit(");\n  if (!n) throw new Error('Node not found: ' + ");
        reveal_strlit("if (!");
        reveal_strlit("return (async () => {\n  const n = await figma.getNodeByIdAsync(");
        assert(");\n  if (!('children' in n) || !Array.isArray(n.children)) return 'Node ' + n.id + ' has no children to unwrap';\n  const parent = n.parent;\n  if (!parent) throw new Error('Wrapper has no parent');\n  const isOnPage = parent.type === 'PAGE';\n  const offX = isOnPage ? n.x : 0, offY = isOnPage ? n.y : 0;\n  const moved = [];\n  for (const c of n.children.slice()) {\n    const cx = c.x, cy = c.y;\n    parent.appendChild(c);\n    if (isOnPage && 'x' in c) { c.x = offX + cx; c.y = offY + cy; }\n    moved.push(c.id);\n  }\n  const wid = n.id, wname = n.name;\n  if (!"@ =~= ");\n  if (!('children' in n) || !Array.isArray(n.children)) return 'Node ' + n.id + ' has no children to unwrap';\n  const parent = n.parent;\n  if (!parent) throw new Error('Wrapper has no parent');\n  const isOnPage = parent.type === 'PAGE';\n  const offX = isOnPage ? n.x : 0, offY = isOnPage ? n.y : 0;\n  const moved = [];\n  for (const c of n.children.slice()) {\n    const cx = c.x, cy = c.y;\n    parent.appendChild(c);\n    if (isOnPage && 'x' in c) { c.x = offX + cx; c.y = offY + cy; }\n    moved.push(c.id);\n  }\n  const wid = n.id, wname = n.name;\n  "@ + "if (!"@);
        assert(") n.remove();\n  return { unwrapped: wid, name: wname, children: moved, deletedWrapper: !"@ =~= ") n.remove();"@ + "\n  return { unwrapped: wid, name: wname, children: moved, deletedWrapper: !"@);
        let a = "return (async () => {\n  const n = await figma.getNodeByIdAsync("@ + json_quote(node_id) + ");\n  if (!n) throw new Error('Node not found: ' + "@ + json_quote(node_id) + ");\n  if (!('children' in n) || !Array.isArray(n.children)) return 'Node ' + n.id + ' has no children to unwrap';\n  const parent = n.parent;\n  if (!parent) throw new Error('Wrapper has no parent');\n  const isOnPage = parent.type === 'PAGE';\n  const offX = isOnPage ? n.x : 0, offY = isOnPage ? n.y : 0;\n  const moved = [];\n  for (const c of n.children.slice()) {\n    const cx = c.x, cy = c.y;\n    parent.appendChild(c);\n    if (isOnPage && 'x' in c) { c.x = offX + cx; c.y = offY + cy; }\n    moved.push(c.id);\n  }\n  const wid = n.id, wname = n.name;\n  "@;
        let p = "if (!"@ + bool_text(keep_wrapper) + ") n.remove();"@;
        let c = "\n  return { unwrapped: wid, name: wname, children: moved, deletedWrapper: !"@ + bool_text(keep_wrapper) + " };\n})()"@;
        assert(unwrap_js(node_id, keep_wrapper) =~= a + p + c);
        lemma_contains_mid(a, p, c);
    }
}

/// Law: `unwrap id` works on node `id` and removes the emptied wrapper
/// unless it is asked to keep it.
pub proof fn lemma_unwrap_removes_wrapper_unless_kept(node_id: Seq<char>, keep_wrapper: bool)
    ensures
        contains_text(unwrap_js(node_id, keep_wrapper), "figma.getNodeByIdAsync("@ + json_quote(node_id) + ")"@),
        keep_wrapper ==> contains_text(unwrap_js(node_id, keep_wrapper), "if (!true) n.remove();"@),
        !keep_wrapper ==> contains_text(unwrap_js(node_id, keep_wrapper), "if (!false) n.remove();"@),
{
    lemma_unwrap_layout(node_id, keep_wrapper);
    reveal_strlit("if (!");
    reveal_strlit(") n.remove();");
    reveal_strlit("if (!true) n.remove();");
    reveal_strlit("if (!false) n.remove();");
    reveal_strlit("true");
    reveal_strlit("false");
    assert("if (!true) n.remove();"@ =~= "if (!"@ + "true"@ + ") n.remove();"@);
    assert("if (!false) n.remove();"@ =~= "if (!"@ + "false"@ + ") n.remove();"@);
}

/// Law: `find q` lists the nodes of the page whose lower-cased name contains
/// the query (lower-cased by the caller).
pub proof fn lemma_find_matches_lowered_name(lowered: Seq<char>)
    ensures
        contains_text(find_lowered_js(lowered), "n.name.toLowerCase().includes("@ + json_quote(lowered) + "))"@),
{
    assert(contains_text(find_lowered_js(lowered), "n.name.toLowerCase().includes("@ + json_quote(lowered) + "))"@)) by {
        reveal_strlit("))");
        reveal_strlit(")).map(n => ({ id: n.id, name: n.name, type: n.type }))");
        reveal_strlit(".map(n => ({ id: n.id, name: n.name, type: n.type }))");
        reveal_strlit("n.name.toLowerCase().includes(");
        reveal_strlit("return figma.currentPage.findAll(n => ");
        reveal_strlit("return figma.currentPage.findAll(n => n.name.toLowerCase().includes(");
        assert("return figma.currentPage.findAll(n => n.name.toLowerCase().includes("@ =~= "return figma.currentPage.findAll(n => "@ + "n.name.toLowerCase().includes("@);
        assert(")).map(n => ({ id: n.id, name: n.name, type: n.type }))"@ =~= "))"@ + ".map(n => ({ id: n.id, name: n.name, type: n.type }))"@);
        let a = "return figma.currentPage.findAll(n => "@;
        let p = "n.name.toLowerCase().includes("@ + json_quote(lowered) + "))"@;
        let c = ".map(n => ({ id: n.id, name: n.name, type: n.type }))"@;
        assert(find_lowered_js(lowered) =~= a + p + c);
        lemma_contains_mid(a, p, c);
    }
}

/// Law: `var delete-all <collection>` deletes only the variable collections
/// whose name contains `collection`; without one it deletes them all.
pub proof fn lemma_var_delete_all_filters_by_name(name: Seq<char>)
    ensures
        contains_text(var_delete_all_js(Some(name)), "cols = cols.filter(c => c.name.includes("@ + json_quote(name) + "));"@),
{
    let f = "cols = cols.filter(c => c.name.includes("@ + json_quote(name) + "));"@;
    let a = "return (async () => { let cols = await figma.variables.getLocalVariableCollectionsAsync(); "@;
    let c = " let deleted = 0; for (const col of cols) { const vars = await figma.variables.getLocalVariablesAsync(); for (const v of vars.filter(v => v.variableCollectionId === col.id)) { v.remove(); deleted++; } col.remove(); } return { deletedVariables: deleted, deletedCollections: cols.length }; })()"@;
    assert(var_delete_all_js(Some(name)) =~= a + f + c);
    lemma_contains_mid(a, f, c);
}

} // verus!
