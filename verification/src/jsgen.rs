//! Small helpers that emit Figma Plugin API JS snippets: colour fills and
//! strokes (literal or bound to a variable), variable loading, node selectors
//! and the next free position on the page.

use vstd::prelude::*;
use crate::color::{channel_str, channel_text, hex_color, parse_hex_color};
use crate::json::{js_string, js_string_array, json_quote, json_string_array, texts_of};
use crate::text::{contains_text, lemma_contains_mid, is_prefix, lowercase, lowercased, starts_with_text};

verus! {

/// `v` names a variable (`var:<name>`).
pub open spec fn is_var_ref_text(v: Seq<char>) -> bool {
    is_prefix("var:"@, v)
}

/// The variable name of `v`: the text after `var:`, or `v` itself.
pub open spec fn var_name_text(v: Seq<char>) -> Seq<char> {
    if is_var_ref_text(v) {
        v.skip(4)
    } else {
        v
    }
}

/// `node_var.property = [{ type: 'SOLID', color: { r: .., g: .., b: .. } }];`
pub open spec fn solid_paint_js(node_var: Seq<char>, property: Seq<char>, r: u8, g: u8, b: u8) -> Seq<char> {
    node_var + "."@ + property + " = [{ type: 'SOLID', color: { r: "@ + channel_text(r) + ", g: "@
        + channel_text(g) + ", b: "@ + channel_text(b) + " } }];"@
}

/// `s` with every `/` that follows a `*` written `\/`, so that `*/` never
/// occurs in it.
pub open spec fn close_escaped(s: Seq<char>) -> Seq<char>
    decreases s.len(),
{
    if s.len() == 0 {
        Seq::empty()
    } else {
        let p = s.drop_last();
        close_escaped(p) + if s.last() == '/' && p.len() > 0 && p.last() == '*' {
            seq!['\\', '/']
        } else {
            seq![s.last()]
        }
    }
}

/// No `*/` occurs in `s`.
pub open spec fn no_comment_close(s: Seq<char>) -> bool {
    forall|i: int| 0 <= i < s.len() - 1 ==> !(#[trigger] s[i] == '*' && s[i + 1] == '/')
}

/// The comment left in place of a colour that is no colour: the colour as a
/// JSON literal, with `*/` broken up so that nothing given as a colour can
/// end the comment and run as code.
pub open spec fn invalid_color_js(color: Seq<char>) -> Seq<char> {
    "/* invalid color "@ + close_escaped(json_quote(color)) + " */"@
}

/// Script that sets `property` of `node_var` to `color`.
pub open spec fn fill_js(color: Seq<char>, node_var: Seq<char>, property: Seq<char>) -> Seq<char> {
    if is_var_ref_text(color) {
        node_var + "."@ + property + " = [boundFill(vars["@ + json_quote(var_name_text(color))
            + "])];"@
    } else {
        match hex_color(color) {
            Some((r, g, b)) => solid_paint_js(node_var, property, r, g, b),
            None => invalid_color_js(color),
        }
    }
}

/// Script that sets the stroke of `node_var` to `color` with `weight`.
pub open spec fn stroke_js(color: Seq<char>, node_var: Seq<char>, weight: Seq<char>) -> Seq<char> {
    if is_var_ref_text(color) {
        node_var + ".strokes = [boundFill(vars["@ + json_quote(var_name_text(color)) + "])]; "@
            + node_var + ".strokeWeight = "@ + weight + ";"@
    } else {
        match hex_color(color) {
            Some((r, g, b)) => node_var + ".strokes = [{ type: 'SOLID', color: { r: "@
                + channel_text(r) + ", g: "@ + channel_text(g) + ", b: "@ + channel_text(b)
                + " } }]; "@ + node_var + ".strokeWeight = "@ + weight + ";"@,
            None => invalid_color_js(color),
        }
    }
}

/// Whether `v` is a variable reference (`var:<name>`).
pub fn is_var_ref(v: &str) -> (r: bool)
    ensures
        r == is_var_ref_text(v@),
{
    starts_with_text(v, "var:")
}

/// The variable name of a reference: `v` without its `var:` prefix.
pub fn var_name(v: &str) -> (r: &str)
    ensures
        r@ == var_name_text(v@),
{
    proof {
        reveal_strlit("var:");
    }
    if is_var_ref(v) {
        let n = v.unicode_len();
        v.substring_char(4, n)
    } else {
        v
    }
}

fn solid_paint(node_var: &str, property: &str, r: u8, g: u8, b: u8) -> (s: String)
    ensures
        s@ == solid_paint_js(node_var@, property@, r, g, b),
{
    let mut s = String::from_str(node_var);
    s.append(".");
    s.append(property);
    s.append(" = [{ type: 'SOLID', color: { r: ");
    s.append(channel_str(r));
    s.append(", g: ");
    s.append(channel_str(g));
    s.append(", b: ");
    s.append(channel_str(b));
    s.append(" } }];");
    s
}

/// `s` with every `/` that follows a `*` written `\/`.
fn escape_comment_close(s: &str) -> (r: String)
    ensures
        r@ == close_escaped(s@),
{
    let n = s.unicode_len();
    let mut r = String::new();
    let mut i: usize = 0;
    assert(s@.take(0) =~= Seq::<char>::empty());
    while i < n
        invariant
            n == s@.len(),
            i <= n,
            r@ == close_escaped(s@.take(i as int)),
        decreases n - i,
    {
        let c = s.get_char(i);
        assert(s@.take(i + 1).drop_last() =~= s@.take(i as int));
        assert(s@.take(i + 1).last() == c);
        if c == '/' && i > 0 && s.get_char(i - 1) == '*' {
            r.append("\\/");
            proof {
                reveal_strlit("\\/");
                assert("\\/"@ =~= seq!['\\', '/']);
            }
        } else {
            r.append(s.substring_char(i, i + 1));
            assert(s@.subrange(i as int, i + 1) =~= seq![c]);
        }
        i = i + 1;
    }
    assert(s@.take(n as int) =~= s@);
    r
}

fn invalid_color(color: &str) -> (s: String)
    ensures
        s@ == invalid_color_js(color@),
{
    let mut s = String::from_str("/* invalid color ");
    s.append(escape_comment_close(js_string(color).as_str()).as_str());
    s.append(" */");
    s
}

/// Returns (js, uses_vars). `property` is e.g. "fills".
pub fn fill_code(color: &str, node_var: &str, property: &str) -> (r: (String, bool))
    ensures
        r.0@ == fill_js(color@, node_var@, property@),
        r.1 == is_var_ref_text(color@),
{
    if is_var_ref(color) {
        let name = js_string(var_name(color));
        let mut s = String::from_str(node_var);
        s.append(".");
        s.append(property);
        s.append(" = [boundFill(vars[");
        s.append(name.as_str());
        s.append("])];");
        (s, true)
    } else {
        match parse_hex_color(color) {
            Some((r, g, b)) => (solid_paint(node_var, property, r, g, b), false),
            None => (invalid_color(color), false),
        }
    }
}

/// Returns (js, uses_vars) for a stroke binding; `weight` is the stroke
/// weight as written in the script.
pub fn stroke_code(color: &str, node_var: &str, weight: &str) -> (r: (String, bool))
    ensures
        r.0@ == stroke_js(color@, node_var@, weight@),
        r.1 == is_var_ref_text(color@),
{
    if is_var_ref(color) {
        let name = js_string(var_name(color));
        let mut s = String::from_str(node_var);
        s.append(".strokes = [boundFill(vars[");
        s.append(name.as_str());
        s.append("])]; ");
        s.append(node_var);
        s.append(".strokeWeight = ");
        s.append(weight);
        s.append(";");
        (s, true)
    } else {
        match parse_hex_color(color) {
            Some((r, g, b)) => {
                let mut s = String::from_str(node_var);
                s.append(".strokes = [{ type: 'SOLID', color: { r: ");
                s.append(channel_str(r));
                s.append(", g: ");
                s.append(channel_str(g));
                s.append(", b: ");
                s.append(channel_str(b));
                s.append(" } }]; ");
                s.append(node_var);
                s.append(".strokeWeight = ");
                s.append(weight);
                s.append(";");
                (s, false)
            },
            None => (invalid_color(color), false),
        }
    }
}


/// Script that builds a `vars` map from the shadcn collections and a
/// `boundFill` helper.
pub open spec fn var_loading_js() -> Seq<char> {
    r#"
const collections = await figma.variables.getLocalVariableCollectionsAsync();
const vars = {};
for (const col of collections) {
  if (col.name.startsWith('shadcn')) {
    for (const id of col.variableIds) {
      const v = await figma.variables.getVariableByIdAsync(id);
      if (v) vars[v.name] = v;
    }
  }
}
const boundFill = (variable) => figma.variables.setBoundVariableForPaint(
  { type: 'SOLID', color: { r: 0.5, g: 0.5, b: 0.5 } }, 'color', variable
);
"#@
}

/// JS that builds a `vars` map from shadcn collections + a `boundFill` helper.
pub fn var_loading_code() -> (r: &'static str)
    ensures
        r@ == var_loading_js(),
{
    r#"
const collections = await figma.variables.getLocalVariableCollectionsAsync();
const vars = {};
for (const col of collections) {
  if (col.name.startsWith('shadcn')) {
    for (const id of col.variableIds) {
      const v = await figma.variables.getVariableByIdAsync(id);
      if (v) vars[v.name] = v;
    }
  }
}
const boundFill = (variable) => figma.variables.setBoundVariableForPaint(
  { type: 'SOLID', color: { r: 0.5, g: 0.5, b: 0.5 } }, 'color', variable
);
"#
}

/// Script that computes `smartX`, the next free x position on the page,
/// leaving `gap` after the rightmost node.
pub open spec fn smart_pos_js(gap: Seq<char>) -> Seq<char> {
    r#"
const children = figma.currentPage.children;
let smartX = 0;
if (children.length > 0) {
  children.forEach(n => { smartX = Math.max(smartX, n.x + n.width); });
  smartX += "#@ + gap + r#";
}
"#@
}

/// JS that computes `smartX` = next free x position on the page; `gap` is the
/// spacing as written in the script.
pub fn smart_pos_code(gap: &str) -> (r: String)
    ensures
        r@ == smart_pos_js(gap@),
{
    let mut s = String::from_str(r#"
const children = figma.currentPage.children;
let smartX = 0;
if (children.length > 0) {
  children.forEach(n => { smartX = Math.max(smartX, n.x + n.width); });
  smartX += "#);
    s.append(gap);
    s.append(r#";
}
"#);
    s
}


/// A node-id separator: space or comma.
pub open spec fn is_id_separator(c: char) -> bool {
    c == ' ' || c == ','
}

/// Reading `s` left to right: the ids finished so far (each non-empty) and
/// the id being read.
pub open spec fn id_scan(s: Seq<char>) -> (Seq<Seq<char>>, Seq<char>)
    decreases s.len(),
{
    if s.len() == 0 {
        (Seq::empty(), Seq::empty())
    } else {
        let (done, cur) = id_scan(s.drop_last());
        if is_id_separator(s.last()) {
            if cur.len() > 0 {
                (done.push(cur), Seq::empty())
            } else {
                (done, Seq::empty())
            }
        } else {
            (done, cur.push(s.last()))
        }
    }
}

/// The node ids written in `s`: the non-empty runs between spaces and commas,
/// in order.
pub open spec fn split_ids(s: Seq<char>) -> Seq<Seq<char>> {
    let (done, cur) = id_scan(s);
    if cur.len() > 0 {
        done.push(cur)
    } else {
        done
    }
}

/// The text of an optional string.
pub open spec fn opt_text(o: Option<&str>) -> Option<Seq<char>> {
    match o {
        Some(s) => Some(s@),
        None => None,
    }
}

/// Selector over the nodes whose (lower-cased) name contains `lowered`.
pub open spec fn query_selector_js(lowered: Seq<char>) -> Seq<char> {
    "const __pat = "@ + json_quote(lowered)
        + "; const nodes = figma.currentPage.findAll(n => typeof n.name === 'string' && n.name.toLowerCase().includes(__pat));"@
}

/// Selector over the nodes with the given ids.
pub open spec fn ids_selector_js(ids: Seq<Seq<char>>) -> Seq<char> {
    if ids.len() == 1 {
        "const __n = await figma.getNodeByIdAsync("@ + json_quote(ids[0])
            + "); const nodes = __n ? [__n] : [];"@
    } else {
        "const __ids = "@ + json_string_array(ids)
            + "; const __res = await Promise.all(__ids.map(id => figma.getNodeByIdAsync(id))); const nodes = __res.filter(Boolean);"@
    }
}

/// The `const nodes = …` selector: the node ids when `--node` is given, else
/// the query when there is one, else the current selection.
pub open spec fn node_selector_js(node: Option<Seq<char>>, query: Option<Seq<char>>) -> Seq<char> {
    match node {
        Some(n) => ids_selector_js(split_ids(n)),
        None => match query {
            Some(q) => query_selector_js(lowercased(q)),
            None => "const nodes = figma.currentPage.selection;"@,
        },
    }
}

/// The ids written in `s` (separated by spaces or commas, empty runs
/// dropped).
pub fn node_ids(s: &str) -> (r: Vec<String>)
    ensures
        texts_of(r@) == split_ids(s@),
{
    let n = s.unicode_len();
    let mut done: Vec<String> = Vec::new();
    let mut start: usize = 0;
    let mut i: usize = 0;
    assert(s@.take(0) =~= Seq::<char>::empty());
    assert(texts_of(done@) =~= Seq::<Seq<char>>::empty());
    while i < n
        invariant
            n == s@.len(),
            start <= i <= n,
            id_scan(s@.take(i as int)) == (texts_of(done@), s@.subrange(start as int, i as int)),
        decreases n - i,
    {
        let c = s.get_char(i);
        let ghost prev = s@.take(i as int);
        assert(s@.take(i + 1).drop_last() =~= prev);
        assert(s@.take(i + 1).last() == c);
        if c == ' ' || c == ',' {
            if start < i {
                let id = String::from_str(s.substring_char(start, i));
                let ghost before = done@;
                done.push(id);
                assert(texts_of(done@) =~= texts_of(before).push(s@.subrange(start as int, i as int)));
            }
            start = i + 1;
            assert(s@.subrange(start as int, i + 1) =~= Seq::<char>::empty());
        } else {
            assert(s@.subrange(start as int, i + 1) =~= s@.subrange(start as int, i as int).push(c));
        }
        i = i + 1;
    }
    assert(s@.take(n as int) =~= s@);
    if start < n {
        let id = String::from_str(s.substring_char(start, n));
        let ghost before = done@;
        done.push(id);
        assert(texts_of(done@) =~= texts_of(before).push(s@.subrange(start as int, n as int)));
    }
    done
}

/// Selector over the nodes whose name, lower-cased, contains `lowered`.
pub fn query_selector(lowered: &str) -> (r: String)
    ensures
        r@ == query_selector_js(lowered@),
{
    let mut s = String::from_str("const __pat = ");
    s.append(js_string(lowered).as_str());
    s.append("; const nodes = figma.currentPage.findAll(n => typeof n.name === 'string' && n.name.toLowerCase().includes(__pat));");
    s
}

/// Build the `const nodes = …` selector JS: prefer --node id(s), then
/// --query name match, else the current selection.
pub fn node_selector(node: Option<&str>, query: Option<&str>) -> (r: String)
    ensures
        r@ == node_selector_js(opt_text(node), opt_text(query)),
{
    if let Some(n) = node {
        let ids = node_ids(n);
        if ids.len() == 1 {
            let mut s = String::from_str("const __n = await figma.getNodeByIdAsync(");
            s.append(js_string(ids[0].as_str()).as_str());
            s.append("); const nodes = __n ? [__n] : [];");
            return s;
        }
        let mut s = String::from_str("const __ids = ");
        s.append(js_string_array(ids.as_slice()).as_str());
        s.append("; const __res = await Promise.all(__ids.map(id => figma.getNodeByIdAsync(id))); const nodes = __res.filter(Boolean);");
        return s;
    }
    if let Some(q) = query {
        let lowered = lowercase(q);
        return query_selector(lowered.as_str());
    }
    String::from_str("const nodes = figma.currentPage.selection;")
}


/// Law: a `var:` reference names the variable written after the prefix, and
/// is recognised as a reference.
pub proof fn lemma_var_ref_round_trip(name: Seq<char>)
    ensures
        is_var_ref_text("var:"@ + name),
        var_name_text("var:"@ + name) == name,
{
    reveal_strlit("var:");
    let v = "var:"@ + name;
    assert(v.take(4) =~= "var:"@);
    assert(v.skip(4) =~= name);
}

/// Law: a text that does not start with `var:` is its own variable name.
pub proof fn lemma_var_name_plain(v: Seq<char>)
    requires
        !is_var_ref_text(v),
    ensures
        var_name_text(v) == v,
{
}

/// The finished ids of a scan are non-empty and hold no separator; the id
/// being read holds no separator.
proof fn lemma_id_scan_clean(s: Seq<char>)
    ensures
        forall|i: int| 0 <= i < id_scan(s).0.len() ==> #[trigger] id_scan(s).0[i].len() > 0,
        forall|i: int, j: int| 0 <= i < id_scan(s).0.len() && 0 <= j < id_scan(s).0[i].len()
            ==> !is_id_separator(#[trigger] id_scan(s).0[i][j]),
        forall|j: int| 0 <= j < id_scan(s).1.len() ==> !is_id_separator(#[trigger] id_scan(s).1[j]),
    decreases s.len(),
{
    if s.len() > 0 {
        lemma_id_scan_clean(s.drop_last());
        let (done, cur) = id_scan(s.drop_last());
        if !is_id_separator(s.last()) {
            assert forall|j: int| 0 <= j < id_scan(s).1.len() implies !is_id_separator(#[trigger] id_scan(s).1[j]) by {
                if j < cur.len() {
                    assert(id_scan(s).1[j] == cur[j]);
                }
            }
        }
    }
}

/// Law: every id that `--node` names is non-empty and holds no space or
/// comma.
pub proof fn lemma_split_ids_clean(s: Seq<char>)
    ensures
        forall|i: int| 0 <= i < split_ids(s).len() ==> #[trigger] split_ids(s)[i].len() > 0,
        forall|i: int, j: int| 0 <= i < split_ids(s).len() && 0 <= j < split_ids(s)[i].len()
            ==> !is_id_separator(#[trigger] split_ids(s)[i][j]),
{
    lemma_id_scan_clean(s);
}

/// Law: a text without spaces or commas names itself as the single id.
pub proof fn lemma_split_single_id(s: Seq<char>)
    requires
        s.len() > 0,
        forall|j: int| 0 <= j < s.len() ==> !is_id_separator(#[trigger] s[j]),
    ensures
        split_ids(s) == seq![s],
{
    lemma_scan_no_separator(s);
    assert(Seq::<Seq<char>>::empty().push(s) =~= seq![s]);
}

proof fn lemma_scan_no_separator(s: Seq<char>)
    requires
        forall|j: int| 0 <= j < s.len() ==> !is_id_separator(#[trigger] s[j]),
    ensures
        id_scan(s) == (Seq::<Seq<char>>::empty(), s),
    decreases s.len(),
{
    if s.len() > 0 {
        let p = s.drop_last();
        assert forall|j: int| 0 <= j < p.len() implies !is_id_separator(#[trigger] p[j]) by {
            assert(p[j] == s[j]);
        }
        lemma_scan_no_separator(p);
        assert(!is_id_separator(s[s.len() - 1]));
        assert(p.push(s.last()) =~= s);
    } else {
        assert(s =~= Seq::<char>::empty());
    }
}

/// Law: `--node` takes precedence over `--query`: the selector is the same
/// whatever query is given beside node ids.
pub proof fn lemma_node_precedence(n: Seq<char>, a: Option<Seq<char>>, b: Option<Seq<char>>)
    ensures
        node_selector_js(Some(n), a) == node_selector_js(Some(n), b),
        node_selector_js(Some(n), a) == node_selector_js(Some(n), None),
{
}

proof fn lemma_close_escaped_ends(s: Seq<char>)
    requires
        s.len() > 0,
    ensures
        close_escaped(s).len() > 0,
        close_escaped(s)[0] == s[0],
        close_escaped(s).last() == s.last(),
        no_comment_close(close_escaped(s)),
    decreases s.len(),
{
    let p = s.drop_last();
    if p.len() == 0 {
        assert(close_escaped(p) =~= Seq::<char>::empty());
        assert(close_escaped(s) =~= seq![s.last()]);
    } else {
        lemma_close_escaped_ends(p);
        let a = close_escaped(p);
        let b = if s.last() == '/' && p.last() == '*' { seq!['\\', '/'] } else { seq![s.last()] };
        assert(close_escaped(s) =~= a + b);
        assert(a.last() == p.last());
        lemma_no_close_concat(a, b);
    }
}

proof fn lemma_no_close_concat(a: Seq<char>, b: Seq<char>)
    requires
        a.len() > 0,
        b.len() > 0,
        no_comment_close(a),
        no_comment_close(b),
        !(a.last() == '*' && b[0] == '/'),
    ensures
        no_comment_close(a + b),
{
    let t = a + b;
    assert forall|i: int| 0 <= i < t.len() - 1 implies !(#[trigger] t[i] == '*' && t[i + 1] == '/') by {
        if i < a.len() - 1 {
            assert(t[i] == a[i] && t[i + 1] == a[i + 1]);
        } else if i == a.len() - 1 {
            assert(t[i] == a.last() && t[i + 1] == b[0]);
        } else {
            assert(t[i] == b[i - a.len()] && t[i + 1] == b[i - a.len() + 1]);
        }
    }
}

/// Law: the comment left for a colour that is no colour is one inert block
/// comment: it opens with `/*` and its only `*/` is the one that ends it.
pub proof fn lemma_invalid_color_inert(color: Seq<char>)
    ensures
        invalid_color_js(color).take(2) == "/*"@,
        invalid_color_js(color).skip(invalid_color_js(color).len() - 2) == "*/"@,
        no_comment_close(invalid_color_js(color).drop_last()),
{
    reveal_strlit("/* invalid color ");
    reveal_strlit(" */");
    reveal_strlit("/*");
    reveal_strlit("*/");
    let q = json_quote(color);
    assert(q[0] == '"' && q.last() == '"');
    lemma_close_escaped_ends(q);
    let a = "/* invalid color "@;
    let b = close_escaped(q);
    let c = " */"@;
    assert(no_comment_close(a)) by {
        assert forall|i: int| 0 <= i < a.len() - 1 implies !(#[trigger] a[i] == '*' && a[i + 1] == '/') by {
            assert(a[1] == '*' && a[2] == ' ');
        }
    }
    lemma_no_close_concat(a, b);
    let c1 = seq![' ', '*'];
    assert(no_comment_close(c1));
    lemma_no_close_concat(a + b, c1);
    let t = invalid_color_js(color);
    assert(t =~= a + b + c);
    assert(t.drop_last() =~= a + b + c1);
    assert(t.take(2) =~= "/*"@);
    assert(t.skip(t.len() - 2) =~= "*/"@);
}

/// Law: a `var:` colour binds the variable named after the prefix; a hex
/// colour is painted with its red, green and blue channels in that order.
pub proof fn lemma_fill_binds_or_paints(color: Seq<char>, node_var: Seq<char>, property: Seq<char>)
    ensures
        is_var_ref_text(color) ==> contains_text(fill_js(color, node_var, property), "boundFill(vars["@ + json_quote(var_name_text(color)) + "])"@),
        !is_var_ref_text(color) ==> match hex_color(color) {
            Some((r, g, b)) => contains_text(fill_js(color, node_var, property), "r: "@ + channel_text(r) + ", g: "@ + channel_text(g) + ", b: "@ + channel_text(b)),
            None => fill_js(color, node_var, property) == invalid_color_js(color),
        },
{
    if is_var_ref_text(color) {
        reveal_strlit(" = [");
        reveal_strlit(" = [boundFill(vars[");
        reveal_strlit(".");
        reveal_strlit("])");
        reveal_strlit("])];");
        reveal_strlit("];");
        reveal_strlit("boundFill(vars[");
        assert(" = [boundFill(vars["@ =~= " = ["@ + "boundFill(vars["@);
        assert("])];"@ =~= "])"@ + "];"@);
        let a = node_var + "."@ + property + " = ["@;
        let p = "boundFill(vars["@ + json_quote(var_name_text(color)) + "])"@;
        let c = "];"@;
        assert(fill_js(color, node_var, property) =~= a + p + c);
        lemma_contains_mid(a, p, c);
    } else {
        match hex_color(color) {
            Some((r, g, b)) => {
        reveal_strlit(" = [{ type: 'SOLID', color: { ");
        reveal_strlit(" = [{ type: 'SOLID', color: { r: ");
        reveal_strlit(" } }];");
        reveal_strlit(", b: ");
        reveal_strlit(", g: ");
        reveal_strlit(".");
        reveal_strlit("r: ");
        assert(" = [{ type: 'SOLID', color: { r: "@ =~= " = [{ type: 'SOLID', color: { "@ + "r: "@);
        let a = node_var + "."@ + property + " = [{ type: 'SOLID', color: { "@;
        let p = "r: "@ + channel_text(r) + ", g: "@ + channel_text(g) + ", b: "@ + channel_text(b);
        let c = " } }];"@;
        assert(solid_paint_js(node_var, property, r, g, b) =~= a + p + c);
        lemma_contains_mid(a, p, c);
            },
            None => {},
        }
    }
}

/// Law: a stroke binds a `var:` colour's variable or paints a hex colour's
/// red, green and blue channels in that order, and sets the weight `weight`.
pub proof fn lemma_stroke_binds_or_paints(color: Seq<char>, node_var: Seq<char>, weight: Seq<char>)
    ensures
        is_var_ref_text(color) ==> contains_text(stroke_js(color, node_var, weight), "boundFill(vars["@ + json_quote(var_name_text(color)) + "])"@),
        is_var_ref_text(color) ==> contains_text(stroke_js(color, node_var, weight), "strokeWeight = "@ + weight + ";"@),
        !is_var_ref_text(color) ==> match hex_color(color) {
            Some((r, g, b)) => contains_text(stroke_js(color, node_var, weight), "r: "@ + channel_text(r) + ", g: "@ + channel_text(g) + ", b: "@ + channel_text(b))
                && contains_text(stroke_js(color, node_var, weight), "strokeWeight = "@ + weight + ";"@),
            None => stroke_js(color, node_var, weight) == invalid_color_js(color),
        },
{
    if is_var_ref_text(color) {
        assert(contains_text(stroke_js(color, node_var, weight), "boundFill(vars["@ + json_quote(var_name_text(color)) + "])"@)) by {
        reveal_strlit(".strokeWeight = ");
        reveal_strlit(".strokes = [");
        reveal_strlit(".strokes = [boundFill(vars[");
        reveal_strlit(";");
        reveal_strlit("])");
        reveal_strlit("])]; ");
        reveal_strlit("]; ");
        reveal_strlit("boundFill(vars[");
        assert(".strokes = [boundFill(vars["@ =~= ".strokes = ["@ + "boundFill(vars["@);
        assert("])]; "@ =~= "])"@ + "]; "@);
        let a = node_var + ".strokes = ["@;
        let p = "boundFill(vars["@ + json_quote(var_name_text(color)) + "])"@;
        let c = "]; "@ + node_var + ".strokeWeight = "@ + weight + ";"@;
        assert(stroke_js(color, node_var, weight) =~= a + p + c);
        lemma_contains_mid(a, p, c);
        }
        assert(contains_text(stroke_js(color, node_var, weight), "strokeWeight = "@ + weight + ";"@)) by {
        reveal_strlit(".");
        reveal_strlit(".strokeWeight = ");
        reveal_strlit(".strokes = [boundFill(vars[");
        reveal_strlit(";");
        reveal_strlit("])]; ");
        reveal_strlit("strokeWeight = ");
        assert(".strokeWeight = "@ =~= "."@ + "strokeWeight = "@);
        let a = node_var + ".strokes = [boundFill(vars["@ + json_quote(var_name_text(color)) + "])]; "@ + node_var + "."@;
        let p = "strokeWeight = "@ + weight + ";"@;
        let c = Seq::<char>::empty();
        assert(stroke_js(color, node_var, weight) =~= a + p + c);
        lemma_contains_mid(a, p, c);
        }
    } else {
        match hex_color(color) {
            Some((r, g, b)) => {
                assert(contains_text(stroke_js(color, node_var, weight), "r: "@ + channel_text(r) + ", g: "@ + channel_text(g) + ", b: "@ + channel_text(b))) by {
        reveal_strlit(" } }]; ");
        reveal_strlit(", b: ");
        reveal_strlit(", g: ");
        reveal_strlit(".strokeWeight = ");
        reveal_strlit(".strokes = [{ type: 'SOLID', color: { ");
        reveal_strlit(".strokes = [{ type: 'SOLID', color: { r: ");
        reveal_strlit(";");
        reveal_strlit("r: ");
        assert(".strokes = [{ type: 'SOLID', color: { r: "@ =~= ".strokes = [{ type: 'SOLID', color: { "@ + "r: "@);
        let a = node_var + ".strokes = [{ type: 'SOLID', color: { "@;
        let p = "r: "@ + channel_text(r) + ", g: "@ + channel_text(g) + ", b: "@ + channel_text(b);
        let c = " } }]; "@ + node_var + ".strokeWeight = "@ + weight + ";"@;
        assert(stroke_js(color, node_var, weight) =~= a + p + c);
        lemma_contains_mid(a, p, c);
                }
                assert(contains_text(stroke_js(color, node_var, weight), "strokeWeight = "@ + weight + ";"@)) by {
        reveal_strlit(" } }]; ");
        reveal_strlit(", b: ");
        reveal_strlit(", g: ");
        reveal_strlit(".");
        reveal_strlit(".strokeWeight = ");
        reveal_strlit(".strokes = [{ type: 'SOLID', color: { r: ");
        reveal_strlit(";");
        reveal_strlit("strokeWeight = ");
        assert(".strokeWeight = "@ =~= "."@ + "strokeWeight = "@);
        let a = node_var + ".strokes = [{ type: 'SOLID', color: { r: "@ + channel_text(r) + ", g: "@ + channel_text(g) + ", b: "@ + channel_text(b) + " } }]; "@ + node_var + "."@;
        let p = "strokeWeight = "@ + weight + ";"@;
        let c = Seq::<char>::empty();
        assert(stroke_js(color, node_var, weight) =~= a + p + c);
        lemma_contains_mid(a, p, c);
                }
            },
            None => {},
        }
    }
}

} // verus!
