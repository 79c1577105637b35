//! Script builders for the eval-based commands. Each function returns a
//! Figma Plugin API JS string that the daemon hands to the plugin; pure string
//! construction, no I/O. Numeric arguments are taken as the text they are
//! written with in the script.

use vstd::prelude::*;
use crate::color::{channel_str, channel_text, hex_color, parse_hex_color};
use crate::json::{js_string, js_string_array, json_quote, json_string_array, texts_of};
use crate::jsgen::{fill_code, fill_js, is_var_ref, is_var_ref_text, node_selector, node_selector_js, opt_text, smart_pos_code, smart_pos_js, stroke_code, stroke_js, var_loading_code, var_loading_js, var_name, var_name_text};
use crate::text::{contains_text, lemma_contains_mid, bool_str, bool_text, decimal, lowercase, lowercased, same_text, u64_text, uppercase, uppercased};

verus! {

/// `(async () => {` body `})()`: the async IIFE that the plugin evaluates.
pub open spec fn wrap_async_js(body: Seq<char>) -> Seq<char> {
    "(async () => {\n"@ + body + "\n})()"@
}

fn wrap_async(body: &str) -> (r: String)
    ensures
        r@ == wrap_async_js(body@),
{
    let mut s = String::from_str("(async () => {\n");
    s.append(body);
    s.append("\n})()");
    s
}

/// The text of an optional `String`.
pub open spec fn opt_string_text(o: Option<String>) -> Option<Seq<char>> {
    match o {
        Some(s) => Some(s@),
        None => None,
    }
}

/// The text held, or `d` when there is none.
pub open spec fn text_or(o: Option<Seq<char>>, d: Seq<char>) -> Seq<char> {
    match o {
        Some(s) => s,
        None => d,
    }
}

/// `pre` + value + `post` when there is a value, else nothing.
pub open spec fn opt_stmt_js(o: Option<Seq<char>>, pre: Seq<char>, post: Seq<char>) -> Seq<char> {
    match o {
        Some(v) => pre + v + post,
        None => Seq::empty(),
    }
}

/// The fill script for an optional colour (nothing without one).
pub open spec fn opt_fill_js(o: Option<Seq<char>>, node_var: Seq<char>, property: Seq<char>) -> Seq<char> {
    match o {
        Some(c) => fill_js(c, node_var, property),
        None => Seq::empty(),
    }
}

/// The stroke script for an optional colour (nothing without one).
pub open spec fn opt_stroke_js(o: Option<Seq<char>>, node_var: Seq<char>, weight: Seq<char>) -> Seq<char> {
    match o {
        Some(c) => stroke_js(c, node_var, weight),
        None => Seq::empty(),
    }
}

/// An optional colour refers to a variable.
pub open spec fn opt_uses_vars(o: Option<Seq<char>>) -> bool {
    match o {
        Some(c) => is_var_ref_text(c),
        None => false,
    }
}

/// The variable-loading prelude when variables are used, else nothing.
pub open spec fn vars_js(uses: bool) -> Seq<char> {
    if uses {
        var_loading_js()
    } else {
        Seq::empty()
    }
}

/// `const smartX = x;` for a given x, else the next free position with `gap`.
pub open spec fn smart_x_js(x: Option<Seq<char>>, gap: Seq<char>) -> Seq<char> {
    match x {
        Some(v) => "const smartX = "@ + v + ";"@,
        None => smart_pos_js(gap),
    }
}

fn opt_str(o: &Option<String>) -> (r: Option<&str>)
    ensures
        opt_text(r) == opt_string_text(*o),
{
    match o {
        Some(s) => Some(s.as_str()),
        None => None,
    }
}

fn str_or<'a>(o: &'a Option<String>, d: &'a str) -> (r: &'a str)
    ensures
        r@ == text_or(opt_string_text(*o), d@),
{
    match o {
        Some(s) => s.as_str(),
        None => d,
    }
}

fn opt_or<'a>(o: Option<&'a str>, d: &'a str) -> (r: &'a str)
    ensures
        r@ == text_or(opt_text(o), d@),
{
    match o {
        Some(s) => s,
        None => d,
    }
}

fn opt_stmt(o: Option<&str>, pre: &str, post: &str) -> (r: String)
    ensures
        r@ == opt_stmt_js(opt_text(o), pre@, post@),
{
    match o {
        Some(v) => {
            let mut s = String::from_str(pre);
            s.append(v);
            s.append(post);
            s
        },
        None => String::new(),
    }
}

fn opt_fill(o: Option<&str>, node_var: &str, property: &str) -> (r: (String, bool))
    ensures
        r.0@ == opt_fill_js(opt_text(o), node_var@, property@),
        r.1 == opt_uses_vars(opt_text(o)),
{
    match o {
        Some(c) => fill_code(c, node_var, property),
        None => (String::new(), false),
    }
}

fn opt_stroke(o: Option<&str>, node_var: &str, weight: &str) -> (r: (String, bool))
    ensures
        r.0@ == opt_stroke_js(opt_text(o), node_var@, weight@),
        r.1 == opt_uses_vars(opt_text(o)),
{
    match o {
        Some(c) => stroke_code(c, node_var, weight),
        None => (String::new(), false),
    }
}

fn var_loading_if(uses: bool) -> (r: String)
    ensures
        r@ == vars_js(uses),
{
    if uses {
        String::from_str(var_loading_code())
    } else {
        String::new()
    }
}

fn smart_x(x: Option<&str>, gap: &str) -> (r: String)
    ensures
        r@ == smart_x_js(opt_text(x), gap@),
{
    match x {
        Some(v) => {
            let mut s = String::from_str("const smartX = ");
            s.append(v);
            s.append(";");
            s
        },
        None => smart_pos_code(gap),
    }
}

/// Options of `create frame|rect|ellipse`. Numbers are held as the text they
/// are written with in the generated script.
pub struct ShapeOpts {
    pub name: Option<String>,
    pub width: String,
    pub height: Option<String>,
    pub x: Option<String>,
    pub y: String,
    pub fill: Option<String>,
    pub stroke: Option<String>,
    pub radius: Option<String>,
    pub opacity: Option<String>,
}

/// Script that creates a frame named `o.name` (default `Frame`), sized and placed as `o` says, with an optional fill and corner radius.
pub open spec fn create_frame_js(o: ShapeOpts) -> Seq<char> {
    let name = text_or(opt_string_text(o.name), "Frame"@);
    let fill = opt_fill_js(opt_string_text(o.fill), "frame"@, "fills"@);
    let uses_f = opt_uses_vars(opt_string_text(o.fill));
    let vars = vars_js(uses_f);
    let pos = smart_x_js(opt_string_text(o.x), "100"@);
    let h = text_or(opt_string_text(o.height), o.width@);
    let radius = opt_stmt_js(opt_string_text(o.radius), "frame.cornerRadius = "@, ";"@);
    wrap_async_js(
        vars
        + pos
        + "\nconst frame = figma.createFrame();\nframe.name = "@
        + json_quote(name)
        + ";\nframe.x = smartX;\nframe.y = "@
        + o.y@
        + ";\nframe.resize("@
        + o.width@
        + ", "@
        + h
        + ");\n"@
        + fill
        + "\n"@
        + radius
        + "\nfigma.currentPage.selection = [frame];\nreturn { id: frame.id, name: frame.name, x: smartX, y: "@
        + o.y@
        + " };"@
    )
}

proof fn lemma_frame_layout(vars: Seq<char>, pos: Seq<char>, q: Seq<char>, y: Seq<char>, w: Seq<char>, h: Seq<char>, fill: Seq<char>, radius: Seq<char>)
    ensures
        contains_text(wrap_async_js(
        vars
        + pos
        + "\nconst frame = figma.createFrame();\nframe.name = "@
        + q
        + ";\nframe.x = smartX;\nframe.y = "@
        + y
        + ";\nframe.resize("@
        + w
        + ", "@
        + h
        + ");\n"@
        + fill
        + "\n"@
        + radius
        + "\nfigma.currentPage.selection = [frame];\nreturn { id: frame.id, name: frame.name, x: smartX, y: "@
        + y
        + " };"@
    ), "frame.y = "@ + y + ";"@),
        contains_text(wrap_async_js(
        vars
        + pos
        + "\nconst frame = figma.createFrame();\nframe.name = "@
        + q
        + ";\nframe.x = smartX;\nframe.y = "@
        + y
        + ";\nframe.resize("@
        + w
        + ", "@
        + h
        + ");\n"@
        + fill
        + "\n"@
        + radius
        + "\nfigma.currentPage.selection = [frame];\nreturn { id: frame.id, name: frame.name, x: smartX, y: "@
        + y
        + " };"@
    ), "frame.resize("@ + w + ", "@ + h + ")"@),
{
    reveal_strlit(";\nframe.x = smartX;\nframe.y = ");
    reveal_strlit(";\nframe.x = smartX;\n");
    reveal_strlit("frame.y = ");
    reveal_strlit(";\nframe.resize(");
    reveal_strlit("frame.resize(");
    reveal_strlit(");\n");
    reveal_strlit(";\n");
    reveal_strlit(";");
    reveal_strlit(")");
    reveal_strlit("\n");
    assert(";\nframe.x = smartX;\nframe.y = "@ =~= ";\nframe.x = smartX;\n"@ + "frame.y = "@);
    assert(";\nframe.resize("@ =~= ";"@ + "\n"@ + "frame.resize("@);
    assert(");\n"@ =~= ")"@ + ";\n"@);
    let open = "(async () => {\n"@ + vars + pos + "\nconst frame = figma.createFrame();\nframe.name = "@ + q
        + ";\nframe.x = smartX;\n"@;
    let py = "frame.y = "@ + y + ";"@;
    let pr = "frame.resize("@ + w + ", "@ + h + ")"@;
    let close = ";\n"@ + fill
        + "\n"@
        + radius
        + "\nfigma.currentPage.selection = [frame];\nreturn { id: frame.id, name: frame.name, x: smartX, y: "@
        + y
        + " };"@ + "\n})()"@;
    let s = wrap_async_js(
        vars
        + pos
        + "\nconst frame = figma.createFrame();\nframe.name = "@
        + q
        + ";\nframe.x = smartX;\nframe.y = "@
        + y
        + ";\nframe.resize("@
        + w
        + ", "@
        + h
        + ");\n"@
        + fill
        + "\n"@
        + radius
        + "\nfigma.currentPage.selection = [frame];\nreturn { id: frame.id, name: frame.name, x: smartX, y: "@
        + y
        + " };"@
    );
    assert(s =~= open + py + ("\n"@ + pr + close));
    lemma_contains_mid(open, py, "\n"@ + pr + close);
    assert(s =~= (open + py + "\n"@) + pr + close);
    lemma_contains_mid(open + py + "\n"@, pr, close);
}

/// Law: `create frame` puts the new frame at `y` and gives it width
/// `width` and height `height` (the width when no height is given), in
/// that order: the script sets `frame.y = y` and calls
/// `frame.resize(width, height)`.
pub proof fn lemma_create_frame_size_and_place(o: ShapeOpts)
    ensures
        contains_text(create_frame_js(o), "frame.y = "@ + o.y@ + ";"@),
        contains_text(create_frame_js(o), "frame.resize("@ + o.width@ + ", "@ + match o.height {
            Some(h) => h@,
            None => o.width@,
        } + ")"@),
{
    
    lemma_frame_layout(vars_js(opt_uses_vars(opt_string_text(o.fill))), smart_x_js(opt_string_text(o.x), "100"@),
        json_quote(text_or(opt_string_text(o.name), "Frame"@)), o.y@, o.width@, text_or(opt_string_text(o.height), o.width@),
        opt_fill_js(opt_string_text(o.fill), "frame"@, "fills"@),
        opt_stmt_js(opt_string_text(o.radius), "frame.cornerRadius = "@, ";"@));
}

/// Script that creates a frame.
pub fn create_frame(o: &ShapeOpts) -> (script: String)
    ensures
        script@ == create_frame_js(*o),
{
    let name = str_or(&o.name, "Frame");
    let name_j = js_string(name);
    let (fill, uses_f) = opt_fill(opt_str(&o.fill), "frame", "fills");
    let vars = var_loading_if(uses_f);
    let pos = smart_x(opt_str(&o.x), "100");
    let h = str_or(&o.height, o.width.as_str());
    let radius = opt_stmt(opt_str(&o.radius), "frame.cornerRadius = ", ";");
    let mut body = String::from_str(vars.as_str());
    body.append(pos.as_str());
    body.append("\nconst frame = figma.createFrame();\nframe.name = ");
    body.append(name_j.as_str());
    body.append(";\nframe.x = smartX;\nframe.y = ");
    body.append(o.y.as_str());
    body.append(";\nframe.resize(");
    body.append(o.width.as_str());
    body.append(", ");
    body.append(h);
    body.append(");\n");
    body.append(fill.as_str());
    body.append("\n");
    body.append(radius.as_str());
    body.append("\nfigma.currentPage.selection = [frame];\nreturn { id: frame.id, name: frame.name, x: smartX, y: ");
    body.append(o.y.as_str());
    body.append(" };");
    wrap_async(body.as_str())
}

/// Script that creates a rectangle (default name `Rectangle`, default fill `#D9D9D9`), with optional stroke, corner radius and opacity.
pub open spec fn create_rect_js(o: ShapeOpts) -> Seq<char> {
    let name = text_or(opt_string_text(o.name), "Rectangle"@);
    let fill = fill_js(text_or(opt_string_text(o.fill), "#D9D9D9"@), "rect"@, "fills"@);
    let uses_f = is_var_ref_text(text_or(opt_string_text(o.fill), "#D9D9D9"@));
    let stroke = opt_stroke_js(opt_string_text(o.stroke), "rect"@, "1"@);
    let uses_s = opt_uses_vars(opt_string_text(o.stroke));
    let vars = vars_js(uses_f || uses_s);
    let pos = smart_x_js(opt_string_text(o.x), "100"@);
    let h = text_or(opt_string_text(o.height), o.width@);
    let radius = opt_stmt_js(opt_string_text(o.radius), "rect.cornerRadius = "@, ";"@);
    let opacity = opt_stmt_js(opt_string_text(o.opacity), "rect.opacity = "@, ";"@);
    wrap_async_js(
        vars
        + pos
        + "\nconst rect = figma.createRectangle();\nrect.name = "@
        + json_quote(name)
        + ";\nrect.x = smartX;\nrect.y = "@
        + o.y@
        + ";\nrect.resize("@
        + o.width@
        + ", "@
        + h
        + ");\n"@
        + fill
        + "\n"@
        + radius
        + "\n"@
        + opacity
        + "\n"@
        + stroke
        + "\nfigma.currentPage.selection = [rect];\nreturn { id: rect.id, name: rect.name };"@
    )
}

proof fn lemma_rect_layout(vars: Seq<char>, pos: Seq<char>, q: Seq<char>, y: Seq<char>, w: Seq<char>, h: Seq<char>, fill: Seq<char>, radius: Seq<char>, opacity: Seq<char>, stroke: Seq<char>)
    ensures
        contains_text(wrap_async_js(
        vars
        + pos
        + "\nconst rect = figma.createRectangle();\nrect.name = "@
        + q
        + ";\nrect.x = smartX;\nrect.y = "@
        + y
        + ";\nrect.resize("@
        + w
        + ", "@
        + h
        + ");\n"@
        + fill
        + "\n"@
        + radius
        + "\n"@
        + opacity
        + "\n"@
        + stroke
        + "\nfigma.currentPage.selection = [rect];\nreturn { id: rect.id, name: rect.name };"@
    ), "rect.y = "@ + y + ";"@),
        contains_text(wrap_async_js(
        vars
        + pos
        + "\nconst rect = figma.createRectangle();\nrect.name = "@
        + q
        + ";\nrect.x = smartX;\nrect.y = "@
        + y
        + ";\nrect.resize("@
        + w
        + ", "@
        + h
        + ");\n"@
        + fill
        + "\n"@
        + radius
        + "\n"@
        + opacity
        + "\n"@
        + stroke
        + "\nfigma.currentPage.selection = [rect];\nreturn { id: rect.id, name: rect.name };"@
    ), "rect.resize("@ + w + ", "@ + h + ")"@),
{
    reveal_strlit(";\nrect.x = smartX;\nrect.y = ");
    reveal_strlit(";\nrect.x = smartX;\n");
    reveal_strlit("rect.y = ");
    reveal_strlit(";\nrect.resize(");
    reveal_strlit("rect.resize(");
    reveal_strlit(");\n");
    reveal_strlit(";\n");
    reveal_strlit(";");
    reveal_strlit(")");
    reveal_strlit("\n");
    assert(";\nrect.x = smartX;\nrect.y = "@ =~= ";\nrect.x = smartX;\n"@ + "rect.y = "@);
    assert(";\nrect.resize("@ =~= ";"@ + "\n"@ + "rect.resize("@);
    assert(");\n"@ =~= ")"@ + ";\n"@);
    let open = "(async () => {\n"@ + vars + pos + "\nconst rect = figma.createRectangle();\nrect.name = "@ + q
        + ";\nrect.x = smartX;\n"@;
    let py = "rect.y = "@ + y + ";"@;
    let pr = "rect.resize("@ + w + ", "@ + h + ")"@;
    let close = ";\n"@ + fill
        + "\n"@
        + radius
        + "\n"@
        + opacity
        + "\n"@
        + stroke
        + "\nfigma.currentPage.selection = [rect];\nreturn { id: rect.id, name: rect.name };"@ + "\n})()"@;
    let s = wrap_async_js(
        vars
        + pos
        + "\nconst rect = figma.createRectangle();\nrect.name = "@
        + q
        + ";\nrect.x = smartX;\nrect.y = "@
        + y
        + ";\nrect.resize("@
        + w
        + ", "@
        + h
        + ");\n"@
        + fill
        + "\n"@
        + radius
        + "\n"@
        + opacity
        + "\n"@
        + stroke
        + "\nfigma.currentPage.selection = [rect];\nreturn { id: rect.id, name: rect.name };"@
    );
    assert(s =~= open + py + ("\n"@ + pr + close));
    lemma_contains_mid(open, py, "\n"@ + pr + close);
    assert(s =~= (open + py + "\n"@) + pr + close);
    lemma_contains_mid(open + py + "\n"@, pr, close);
}

/// Law: `create rect` puts the new rect at `y` and gives it width
/// `width` and height `height` (the width when no height is given), in
/// that order: the script sets `rect.y = y` and calls
/// `rect.resize(width, height)`.
pub proof fn lemma_create_rect_size_and_place(o: ShapeOpts)
    ensures
        contains_text(create_rect_js(o), "rect.y = "@ + o.y@ + ";"@),
        contains_text(create_rect_js(o), "rect.resize("@ + o.width@ + ", "@ + match o.height {
            Some(h) => h@,
            None => o.width@,
        } + ")"@),
{
    let fc = text_or(opt_string_text(o.fill), "#D9D9D9"@);
    let vars = vars_js(is_var_ref_text(fc) || opt_uses_vars(opt_string_text(o.stroke)));
    let pos = smart_x_js(opt_string_text(o.x), "100"@);
    lemma_rect_layout(vars, pos, json_quote(text_or(opt_string_text(o.name), "Rectangle"@)), o.y@, o.width@,
        text_or(opt_string_text(o.height), o.width@), fill_js(fc, "rect"@, "fills"@),
        opt_stmt_js(opt_string_text(o.radius), "rect.cornerRadius = "@, ";"@),
        opt_stmt_js(opt_string_text(o.opacity), "rect.opacity = "@, ";"@),
        opt_stroke_js(opt_string_text(o.stroke), "rect"@, "1"@));
}

/// Script that creates a rectangle.
pub fn create_rect(o: &ShapeOpts) -> (script: String)
    ensures
        script@ == create_rect_js(*o),
{
    let name = str_or(&o.name, "Rectangle");
    let name_j = js_string(name);
    let fill_ref = str_or(&o.fill, "#D9D9D9");
    let (fill, uses_f) = fill_code(fill_ref, "rect", "fills");
    let (stroke, uses_s) = opt_stroke(opt_str(&o.stroke), "rect", "1");
    let vars = var_loading_if(uses_f || uses_s);
    let pos = smart_x(opt_str(&o.x), "100");
    let h = str_or(&o.height, o.width.as_str());
    let radius = opt_stmt(opt_str(&o.radius), "rect.cornerRadius = ", ";");
    let opacity = opt_stmt(opt_str(&o.opacity), "rect.opacity = ", ";");
    let mut body = String::from_str(vars.as_str());
    body.append(pos.as_str());
    body.append("\nconst rect = figma.createRectangle();\nrect.name = ");
    body.append(name_j.as_str());
    body.append(";\nrect.x = smartX;\nrect.y = ");
    body.append(o.y.as_str());
    body.append(";\nrect.resize(");
    body.append(o.width.as_str());
    body.append(", ");
    body.append(h);
    body.append(");\n");
    body.append(fill.as_str());
    body.append("\n");
    body.append(radius.as_str());
    body.append("\n");
    body.append(opacity.as_str());
    body.append("\n");
    body.append(stroke.as_str());
    body.append("\nfigma.currentPage.selection = [rect];\nreturn { id: rect.id, name: rect.name };");
    wrap_async(body.as_str())
}

/// Script that creates an ellipse (default name `Ellipse`, default fill `#D9D9D9`), with an optional stroke.
pub open spec fn create_ellipse_js(o: ShapeOpts) -> Seq<char> {
    let name = text_or(opt_string_text(o.name), "Ellipse"@);
    let fill = fill_js(text_or(opt_string_text(o.fill), "#D9D9D9"@), "ellipse"@, "fills"@);
    let uses_f = is_var_ref_text(text_or(opt_string_text(o.fill), "#D9D9D9"@));
    let stroke = opt_stroke_js(opt_string_text(o.stroke), "ellipse"@, "1"@);
    let uses_s = opt_uses_vars(opt_string_text(o.stroke));
    let vars = vars_js(uses_f || uses_s);
    let pos = smart_x_js(opt_string_text(o.x), "100"@);
    let h = text_or(opt_string_text(o.height), o.width@);
    wrap_async_js(
        vars
        + pos
        + "\nconst ellipse = figma.createEllipse();\nellipse.name = "@
        + json_quote(name)
        + ";\nellipse.x = smartX;\nellipse.y = "@
        + o.y@
        + ";\nellipse.resize("@
        + o.width@
        + ", "@
        + h
        + ");\n"@
        + fill
        + "\n"@
        + stroke
        + "\nfigma.currentPage.selection = [ellipse];\nreturn { id: ellipse.id, name: ellipse.name };"@
    )
}

proof fn lemma_ellipse_layout(vars: Seq<char>, pos: Seq<char>, q: Seq<char>, y: Seq<char>, w: Seq<char>, h: Seq<char>, fill: Seq<char>, stroke: Seq<char>)
    ensures
        contains_text(wrap_async_js(
        vars
        + pos
        + "\nconst ellipse = figma.createEllipse();\nellipse.name = "@
        + q
        + ";\nellipse.x = smartX;\nellipse.y = "@
        + y
        + ";\nellipse.resize("@
        + w
        + ", "@
        + h
        + ");\n"@
        + fill
        + "\n"@
        + stroke
        + "\nfigma.currentPage.selection = [ellipse];\nreturn { id: ellipse.id, name: ellipse.name };"@
    ), "ellipse.y = "@ + y + ";"@),
        contains_text(wrap_async_js(
        vars
        + pos
        + "\nconst ellipse = figma.createEllipse();\nellipse.name = "@
        + q
        + ";\nellipse.x = smartX;\nellipse.y = "@
        + y
        + ";\nellipse.resize("@
        + w
        + ", "@
        + h
        + ");\n"@
        + fill
        + "\n"@
        + stroke
        + "\nfigma.currentPage.selection = [ellipse];\nreturn { id: ellipse.id, name: ellipse.name };"@
    ), "ellipse.resize("@ + w + ", "@ + h + ")"@),
{
    reveal_strlit(";\nellipse.x = smartX;\nellipse.y = ");
    reveal_strlit(";\nellipse.x = smartX;\n");
    reveal_strlit("ellipse.y = ");
    reveal_strlit(";\nellipse.resize(");
    reveal_strlit("ellipse.resize(");
    reveal_strlit(");\n");
    reveal_strlit(";\n");
    reveal_strlit(";");
    reveal_strlit(")");
    reveal_strlit("\n");
    assert(";\nellipse.x = smartX;\nellipse.y = "@ =~= ";\nellipse.x = smartX;\n"@ + "ellipse.y = "@);
    assert(";\nellipse.resize("@ =~= ";"@ + "\n"@ + "ellipse.resize("@);
    assert(");\n"@ =~= ")"@ + ";\n"@);
    let open = "(async () => {\n"@ + vars + pos + "\nconst ellipse = figma.createEllipse();\nellipse.name = "@ + q
        + ";\nellipse.x = smartX;\n"@;
    let py = "ellipse.y = "@ + y + ";"@;
    let pr = "ellipse.resize("@ + w + ", "@ + h + ")"@;
    let close = ";\n"@ + fill
        + "\n"@
        + stroke
        + "\nfigma.currentPage.selection = [ellipse];\nreturn { id: ellipse.id, name: ellipse.name };"@ + "\n})()"@;
    let s = wrap_async_js(
        vars
        + pos
        + "\nconst ellipse = figma.createEllipse();\nellipse.name = "@
        + q
        + ";\nellipse.x = smartX;\nellipse.y = "@
        + y
        + ";\nellipse.resize("@
        + w
        + ", "@
        + h
        + ");\n"@
        + fill
        + "\n"@
        + stroke
        + "\nfigma.currentPage.selection = [ellipse];\nreturn { id: ellipse.id, name: ellipse.name };"@
    );
    assert(s =~= open + py + ("\n"@ + pr + close));
    lemma_contains_mid(open, py, "\n"@ + pr + close);
    assert(s =~= (open + py + "\n"@) + pr + close);
    lemma_contains_mid(open + py + "\n"@, pr, close);
}

/// Law: `create ellipse` puts the new ellipse at `y` and gives it width
/// `width` and height `height` (the width when no height is given), in
/// that order: the script sets `ellipse.y = y` and calls
/// `ellipse.resize(width, height)`.
pub proof fn lemma_create_ellipse_size_and_place(o: ShapeOpts)
    ensures
        contains_text(create_ellipse_js(o), "ellipse.y = "@ + o.y@ + ";"@),
        contains_text(create_ellipse_js(o), "ellipse.resize("@ + o.width@ + ", "@ + match o.height {
            Some(h) => h@,
            None => o.width@,
        } + ")"@),
{
    let fc = text_or(opt_string_text(o.fill), "#D9D9D9"@);
    let vars = vars_js(is_var_ref_text(fc) || opt_uses_vars(opt_string_text(o.stroke)));
    let pos = smart_x_js(opt_string_text(o.x), "100"@);
    lemma_ellipse_layout(vars, pos, json_quote(text_or(opt_string_text(o.name), "Ellipse"@)), o.y@, o.width@,
        text_or(opt_string_text(o.height), o.width@), fill_js(fc, "ellipse"@, "fills"@),
        opt_stroke_js(opt_string_text(o.stroke), "ellipse"@, "1"@));
}

/// Script that creates an ellipse.
pub fn create_ellipse(o: &ShapeOpts) -> (script: String)
    ensures
        script@ == create_ellipse_js(*o),
{
    let name = str_or(&o.name, "Ellipse");
    let name_j = js_string(name);
    let fill_ref = str_or(&o.fill, "#D9D9D9");
    let (fill, uses_f) = fill_code(fill_ref, "ellipse", "fills");
    let (stroke, uses_s) = opt_stroke(opt_str(&o.stroke), "ellipse", "1");
    let vars = var_loading_if(uses_f || uses_s);
    let pos = smart_x(opt_str(&o.x), "100");
    let h = str_or(&o.height, o.width.as_str());
    let mut body = String::from_str(vars.as_str());
    body.append(pos.as_str());
    body.append("\nconst ellipse = figma.createEllipse();\nellipse.name = ");
    body.append(name_j.as_str());
    body.append(";\nellipse.x = smartX;\nellipse.y = ");
    body.append(o.y.as_str());
    body.append(";\nellipse.resize(");
    body.append(o.width.as_str());
    body.append(", ");
    body.append(h);
    body.append(");\n");
    body.append(fill.as_str());
    body.append("\n");
    body.append(stroke.as_str());
    body.append("\nfigma.currentPage.selection = [ellipse];\nreturn { id: ellipse.id, name: ellipse.name };");
    wrap_async(body.as_str())
}

/// Options of `create text`. Numbers are held as the text they are written
/// with in the generated script.
pub struct TextOpts {
    pub content: String,
    pub x: Option<String>,
    pub y: String,
    pub size: String,
    pub color: String,
    pub weight: String,
    pub font: String,
    pub width: Option<String>,
    pub spacing: String,
}

/// The font style that a lower-cased weight name selects.
pub open spec fn font_style_text(lowered: Seq<char>) -> Seq<char> {
    if lowered == "medium"@ {
        "Medium"@
    } else if lowered == "semibold"@ {
        "Semi Bold"@
    } else if lowered == "bold"@ {
        "Bold"@
    } else {
        "Regular"@
    }
}

/// The font style for a lower-cased weight: `medium`, `semibold` and `bold`
/// select their style, anything else `Regular`.
pub fn font_style(lowered: &str) -> (r: &'static str)
    ensures
        r@ == font_style_text(lowered@),
{
    if same_text(lowered, "medium") {
        "Medium"
    } else if same_text(lowered, "semibold") {
        "Semi Bold"
    } else if same_text(lowered, "bold") {
        "Bold"
    } else {
        "Regular"
    }
}

/// Script that loads the font and creates a text node with the content, size, colour and optional width of `o`; the style comes from the lower-cased weight.
pub open spec fn create_text_js(o: TextOpts) -> Seq<char> {
    let style = font_style_text(lowercased(o.weight@));
    let fill = fill_js(o.color@, "text"@, "fills"@);
    let vars = vars_js(is_var_ref_text(o.color@));
    let pos = smart_x_js(opt_string_text(o.x), o.spacing@);
    let wid = opt_stmt_js(opt_string_text(o.width), "text.resize("@, ", text.height); text.textAutoResize = 'HEIGHT';"@);
    wrap_async_js(
        vars
        + pos
        + "\nawait figma.loadFontAsync({ family: "@
        + json_quote(o.font@)
        + ", style: "@
        + json_quote(style)
        + " });\nconst text = figma.createText();\ntext.fontName = { family: "@
        + json_quote(o.font@)
        + ", style: "@
        + json_quote(style)
        + " };\ntext.characters = "@
        + json_quote(o.content@)
        + ";\ntext.fontSize = "@
        + o.size@
        + ";\n"@
        + fill
        + "\ntext.x = smartX;\ntext.y = "@
        + o.y@
        + ";\n"@
        + wid
        + "\nfigma.currentPage.selection = [text];\nreturn { id: text.id, name: text.name };"@
    )
}

/// Script that creates a text node.
pub fn create_text(o: &TextOpts) -> (script: String)
    ensures
        script@ == create_text_js(*o),
{
    let lowered = lowercase(o.weight.as_str());
    let style = font_style(lowered.as_str());
    let (fill, uses) = fill_code(o.color.as_str(), "text", "fills");
    let vars = var_loading_if(uses);
    let pos = smart_x(opt_str(&o.x), o.spacing.as_str());
    let font = js_string(o.font.as_str());
    let style_j = js_string(style);
    let chars = js_string(o.content.as_str());
    let wid = opt_stmt(opt_str(&o.width), "text.resize(", ", text.height); text.textAutoResize = 'HEIGHT';");
    let mut body = String::from_str(vars.as_str());
    body.append(pos.as_str());
    body.append("\nawait figma.loadFontAsync({ family: ");
    body.append(font.as_str());
    body.append(", style: ");
    body.append(style_j.as_str());
    body.append(" });\nconst text = figma.createText();\ntext.fontName = { family: ");
    body.append(font.as_str());
    body.append(", style: ");
    body.append(style_j.as_str());
    body.append(" };\ntext.characters = ");
    body.append(chars.as_str());
    body.append(";\ntext.fontSize = ");
    body.append(o.size.as_str());
    body.append(";\n");
    body.append(fill.as_str());
    body.append("\ntext.x = smartX;\ntext.y = ");
    body.append(o.y.as_str());
    body.append(";\n");
    body.append(wid.as_str());
    body.append("\nfigma.currentPage.selection = [text];\nreturn { id: text.id, name: text.name };");
    wrap_async(body.as_str())
}

/// Script for `create component` with the given name (default `Component`).
pub open spec fn create_component_js(name: Option<Seq<char>>) -> Seq<char> {
    let n = json_quote(text_or(name, "Component"@));
    wrap_async_js(
        "const sel = figma.currentPage.selection;\nif (sel.length === 0) return 'No selection';\nif (sel.length === 1) { const c = figma.createComponentFromNode(sel[0]); c.name = "@
        + n
        + "; figma.currentPage.selection = [c]; return { id: c.id, name: c.name }; }\nconst g = figma.group(sel, figma.currentPage); const c = figma.createComponentFromNode(g); c.name = "@
        + n
        + "; figma.currentPage.selection = [c]; return { id: c.id, name: c.name };"@
    )
}

/// Script that turns the selection into a component named `name` (default `Component`).
pub fn create_component(name: Option<&str>) -> (script: String)
    ensures
        script@ == create_component_js(opt_text(name)),
{
    let n = js_string(opt_or(name, "Component"));
    let mut body = String::from_str("const sel = figma.currentPage.selection;\nif (sel.length === 0) return 'No selection';\nif (sel.length === 1) { const c = figma.createComponentFromNode(sel[0]); c.name = ");
    body.append(n.as_str());
    body.append("; figma.currentPage.selection = [c]; return { id: c.id, name: c.name }; }\nconst g = figma.group(sel, figma.currentPage); const c = figma.createComponentFromNode(g); c.name = ");
    body.append(n.as_str());
    body.append("; figma.currentPage.selection = [c]; return { id: c.id, name: c.name };");
    wrap_async(body.as_str())
}

/// Script for `create group` with the given name (default `Group`).
pub open spec fn create_group_js(name: Option<Seq<char>>) -> Seq<char> {
    let n = json_quote(text_or(name, "Group"@));
    wrap_async_js(
        "const sel = figma.currentPage.selection;\nif (sel.length < 2) return 'Select 2+ elements to group';\nconst g = figma.group(sel, figma.currentPage); g.name = "@
        + n
        + "; figma.currentPage.selection = [g]; return { id: g.id, name: g.name };"@
    )
}

/// Script that turns the selection into a group named `name` (default `Group`).
pub fn create_group(name: Option<&str>) -> (script: String)
    ensures
        script@ == create_group_js(opt_text(name)),
{
    let n = js_string(opt_or(name, "Group"));
    let mut body = String::from_str("const sel = figma.currentPage.selection;\nif (sel.length < 2) return 'Select 2+ elements to group';\nconst g = figma.group(sel, figma.currentPage); g.name = ");
    body.append(n.as_str());
    body.append("; figma.currentPage.selection = [g]; return { id: g.id, name: g.name };");
    wrap_async(body.as_str())
}

/// Options of `create autolayout`. Numbers are held as the text they are
/// written with in the generated script.
pub struct AutoLayoutOpts {
    pub name: Option<String>,
    pub direction: String,
    pub gap: String,
    pub padding: String,
    pub x: Option<String>,
    pub y: String,
    pub fill: Option<String>,
    pub radius: Option<String>,
    pub spacing: String,
}

/// Script that creates an auto-layout frame: vertical for direction `col`, horizontal otherwise; no fill unless one is given.
pub open spec fn create_autolayout_js(o: AutoLayoutOpts) -> Seq<char> {
    let name = text_or(opt_string_text(o.name), "Auto Layout"@);
    let mode = if o.direction@ == "col"@ { "VERTICAL"@ } else { "HORIZONTAL"@ };
    let fill = match opt_string_text(o.fill) {
        Some(c) => fill_js(c, "frame"@, "fills"@),
        None => "frame.fills = [];"@,
    };
    let vars = vars_js(opt_uses_vars(opt_string_text(o.fill)));
    let pos = smart_x_js(opt_string_text(o.x), o.spacing@);
    let radius = opt_stmt_js(opt_string_text(o.radius), "frame.cornerRadius = "@, ";"@);
    wrap_async_js(
        vars
        + pos
        + "\nconst frame = figma.createFrame();\nframe.name = "@
        + json_quote(name)
        + ";\nframe.x = smartX;\nframe.y = "@
        + o.y@
        + ";\nframe.layoutMode = "@
        + json_quote(mode)
        + ";\nframe.primaryAxisSizingMode = 'AUTO';\nframe.counterAxisSizingMode = 'AUTO';\nframe.itemSpacing = "@
        + o.gap@
        + ";\nframe.paddingTop = "@
        + o.padding@
        + "; frame.paddingRight = "@
        + o.padding@
        + "; frame.paddingBottom = "@
        + o.padding@
        + "; frame.paddingLeft = "@
        + o.padding@
        + ";\n"@
        + fill
        + "\n"@
        + radius
        + "\nfigma.currentPage.selection = [frame];\nreturn { id: frame.id, name: frame.name };"@
    )
}

/// Script that creates an auto-layout frame.
pub fn create_autolayout(o: &AutoLayoutOpts) -> (script: String)
    ensures
        script@ == create_autolayout_js(*o),
{
    let name = str_or(&o.name, "Auto Layout");
    let name_j = js_string(name);
    let mode: &str = if same_text(o.direction.as_str(), "col") { "VERTICAL" } else { "HORIZONTAL" };
    let mode_j = js_string(mode);
    let (fill, uses) = match opt_str(&o.fill) {
        Some(c) => fill_code(c, "frame", "fills"),
        None => (String::from_str("frame.fills = [];"), false),
    };
    let vars = var_loading_if(uses);
    let pos = smart_x(opt_str(&o.x), o.spacing.as_str());
    let radius = opt_stmt(opt_str(&o.radius), "frame.cornerRadius = ", ";");
    let mut body = String::from_str(vars.as_str());
    body.append(pos.as_str());
    body.append("\nconst frame = figma.createFrame();\nframe.name = ");
    body.append(name_j.as_str());
    body.append(";\nframe.x = smartX;\nframe.y = ");
    body.append(o.y.as_str());
    body.append(";\nframe.layoutMode = ");
    body.append(mode_j.as_str());
    body.append(";\nframe.primaryAxisSizingMode = 'AUTO';\nframe.counterAxisSizingMode = 'AUTO';\nframe.itemSpacing = ");
    body.append(o.gap.as_str());
    body.append(";\nframe.paddingTop = ");
    body.append(o.padding.as_str());
    body.append("; frame.paddingRight = ");
    body.append(o.padding.as_str());
    body.append("; frame.paddingBottom = ");
    body.append(o.padding.as_str());
    body.append("; frame.paddingLeft = ");
    body.append(o.padding.as_str());
    body.append(";\n");
    body.append(fill.as_str());
    body.append("\n");
    body.append(radius.as_str());
    body.append("\nfigma.currentPage.selection = [frame];\nreturn { id: frame.id, name: frame.name };");
    wrap_async(body.as_str())
}

/// Which nodes a `set`/`bind` command acts on: `--node` id(s), a `--query`
/// on names, or (neither) the current selection.
pub struct Sel {
    pub node: Option<String>,
    pub query: Option<String>,
}

impl Sel {
    /// The `const nodes = …` selector of this choice.
    pub open spec fn selector_js(self) -> Seq<char> {
        node_selector_js(opt_string_text(self.node), opt_string_text(self.query))
    }

    fn js(&self) -> (r: String)
        ensures
            r@ == self.selector_js(),
    {
        node_selector(opt_str(&self.node), opt_str(&self.query))
    }
}

/// Script that applies `mutate` to each selected node and reports `label`.
pub open spec fn set_each_js(selector: Seq<char>, mutate: Seq<char>, label: Seq<char>) -> Seq<char> {
    wrap_async_js(
        selector
        + "\nif (nodes.length === 0) return 'No node found';\nnodes.forEach(n => { "@
        + mutate
        + " });\nreturn '"@
        + label
        + " on ' + nodes.length + ' element(s)';"@
    )
}

fn set_each(sel: &Sel, mutate: &str, label: &str) -> (r: String)
    ensures
        r@ == set_each_js(sel.selector_js(), mutate@, label@),
{
    let selector = sel.js();
    let mut body = String::from_str(selector.as_str());
    body.append("\nif (nodes.length === 0) return 'No node found';\nnodes.forEach(n => { ");
    body.append(mutate);
    body.append(" });\nreturn '");
    body.append(label);
    body.append(" on ' + nodes.length + ' element(s)';");
    wrap_async(body.as_str())
}

/// Script for `set fill`: a `var:` colour binds the named variable (shadcn collections first) to the fills of the chosen nodes and their descendants; a hex colour is set as a solid fill (grey `0.5` when the text is no colour).
pub open spec fn set_fill_js(sel: Sel, color: Seq<char>) -> Seq<char> {
    if is_var_ref_text(color) {
        let name = json_quote(var_name_text(color));
        wrap_async_js(
            sel.selector_js()
        + "\nconst collections = await figma.variables.getLocalVariableCollectionsAsync();\nconst allVars = await figma.variables.getLocalVariablesAsync();\nlet variable = null;\nfor (const v of allVars) { if (v.name !== "@
        + name
        + ") continue; const col = collections.find(c => c.id === v.variableCollectionId); if (col && col.name.startsWith('shadcn')) { variable = v; break; } }\nif (!variable) variable = allVars.find(v => v.name === "@
        + name
        + ");\nif (!variable) return 'Variable not found: ' + "@
        + name
        + ";\nlet count = 0;\nfor (const n of nodes) {\n  let targets = ('fills' in n) ? [n] : (typeof n.findAll === 'function' ? n.findAll(c => 'fills' in c) : []);\n  for (const t of targets) { const base = (t.fills && t.fills[0]) || { type: 'SOLID', color: { r:0,g:0,b:0 } }; t.fills = [figma.variables.setBoundVariableForPaint(base, 'color', variable)]; count++; }\n}\nreturn 'Bound ' + variable.name + ' to fill on ' + count + ' node(s)';"@
        )
    } else {
        let (rt, gt, bt) = match hex_color(color) {
            Some((r, g, b)) => (channel_text(r), channel_text(g), channel_text(b)),
            None => ("0.5"@, "0.5"@, "0.5"@),
        };
        set_each_js(sel.selector_js(), "let ts = ('fills' in n) ? [n] : (typeof n.findAll === 'function' ? n.findAll(c => 'fills' in c) : []); ts.forEach(t => t.fills = [{ type: 'SOLID', color: { r: "@
        + rt
        + ", g: "@
        + gt
        + ", b: "@
        + bt
        + " } }]);"@, "Fill set"@)
    }
}

/// Script that sets (or binds to a variable) the fill of the chosen nodes.
pub fn set_fill(sel: &Sel, color: &str) -> (script: String)
    ensures
        script@ == set_fill_js(*sel, color@),
{
    if is_var_ref(color) {
        let name = js_string(var_name(color));
        let selector = sel.js();
        let mut body = String::from_str(selector.as_str());
        body.append("\nconst collections = await figma.variables.getLocalVariableCollectionsAsync();\nconst allVars = await figma.variables.getLocalVariablesAsync();\nlet variable = null;\nfor (const v of allVars) { if (v.name !== ");
        body.append(name.as_str());
        body.append(") continue; const col = collections.find(c => c.id === v.variableCollectionId); if (col && col.name.startsWith('shadcn')) { variable = v; break; } }\nif (!variable) variable = allVars.find(v => v.name === ");
        body.append(name.as_str());
        body.append(");\nif (!variable) return 'Variable not found: ' + ");
        body.append(name.as_str());
        body.append(";\nlet count = 0;\nfor (const n of nodes) {\n  let targets = ('fills' in n) ? [n] : (typeof n.findAll === 'function' ? n.findAll(c => 'fills' in c) : []);\n  for (const t of targets) { const base = (t.fills && t.fills[0]) || { type: 'SOLID', color: { r:0,g:0,b:0 } }; t.fills = [figma.variables.setBoundVariableForPaint(base, 'color', variable)]; count++; }\n}\nreturn 'Bound ' + variable.name + ' to fill on ' + count + ' node(s)';");
        return wrap_async(body.as_str());
    }
    let (rt, gt, bt): (&str, &str, &str) = match parse_hex_color(color) {
        Some((r, g, b)) => (channel_str(r), channel_str(g), channel_str(b)),
        None => ("0.5", "0.5", "0.5"),
    };
    let mut mutate = String::from_str("let ts = ('fills' in n) ? [n] : (typeof n.findAll === 'function' ? n.findAll(c => 'fills' in c) : []); ts.forEach(t => t.fills = [{ type: 'SOLID', color: { r: ");
    mutate.append(rt);
    mutate.append(", g: ");
    mutate.append(gt);
    mutate.append(", b: ");
    mutate.append(bt);
    mutate.append(" } }]);");
    set_each(sel, mutate.as_str(), "Fill set")
}

/// Script for `set stroke`: the stroke of `color` with weight 1 on each chosen node that has strokes; a `var:` colour loads the variables before the selector.
pub open spec fn set_stroke_js(sel: Sel, color: Seq<char>) -> Seq<char> {
    set_each_js(vars_js(is_var_ref_text(color)) + sel.selector_js(), "if ('strokes' in n) { "@
        + stroke_js(color, "n"@, "1"@)
        + " }"@, "Stroke set"@)
}

/// Script that sets the stroke of the chosen nodes; a `var:` stroke first
/// loads the variables it binds.
pub fn set_stroke(sel: &Sel, color: &str) -> (script: String)
    ensures
        script@ == set_stroke_js(*sel, color@),
{
    let (code, uses_vars) = stroke_code(color, "n", "1");
    let mut body = var_loading_if(uses_vars);
    body.append(sel.js().as_str());
    body.append("\nif (nodes.length === 0) return 'No node found';\nnodes.forEach(n => { ");
    body.append("if ('strokes' in n) { ");
    body.append(code.as_str());
    body.append(" }");
    body.append(" });\nreturn '");
    body.append("Stroke set");
    body.append(" on ' + nodes.length + ' element(s)';");
    wrap_async(body.as_str())
}

/// Script that sets the corner radius of the chosen nodes.
pub open spec fn set_radius_js(sel: Sel, value: Seq<char>) -> Seq<char> {
    set_each_js(sel.selector_js(), "if ('cornerRadius' in n) n.cornerRadius = "@
        + value
        + ";"@, "Radius set"@)
}

/// Script that sets the corner radius of the chosen nodes.
pub fn set_radius(sel: &Sel, value: &str) -> (script: String)
    ensures
        script@ == set_radius_js(*sel, value@),
{
    let mut mutate = String::from_str("if ('cornerRadius' in n) n.cornerRadius = ");
    mutate.append(value);
    mutate.append(";");
    set_each(sel, mutate.as_str(), "Radius set")
}

/// Script that resizes the chosen nodes.
pub open spec fn set_size_js(sel: Sel, w: Seq<char>, h: Seq<char>) -> Seq<char> {
    set_each_js(sel.selector_js(), "if ('resize' in n) n.resize("@
        + w
        + ", "@
        + h
        + ");"@, "Size set"@)
}

/// Script that resizes the chosen nodes.
pub fn set_size(sel: &Sel, w: &str, h: &str) -> (script: String)
    ensures
        script@ == set_size_js(*sel, w@, h@),
{
    let mut mutate = String::from_str("if ('resize' in n) n.resize(");
    mutate.append(w);
    mutate.append(", ");
    mutate.append(h);
    mutate.append(");");
    set_each(sel, mutate.as_str(), "Size set")
}

/// Law: `set size w h` resizes each chosen node to width `w` and height `h`,
/// in that order: the script calls `n.resize(w, h)`.
pub proof fn lemma_set_size_width_then_height(sel: Sel, w: Seq<char>, h: Seq<char>)
    ensures
        contains_text(set_size_js(sel, w, h), "n.resize("@ + w + ", "@ + h + ")"@),
{
    reveal_strlit("if ('resize' in n) n.resize(");
    reveal_strlit("if ('resize' in n) ");
    reveal_strlit("n.resize(");
    reveal_strlit(");");
    reveal_strlit(")");
    reveal_strlit(";");
    assert("if ('resize' in n) n.resize("@ =~= "if ('resize' in n) "@ + "n.resize("@);
    assert(");"@ =~= ")"@ + ";"@);
    let p = "n.resize("@ + w + ", "@ + h + ")"@;
    let s = set_size_js(sel, w, h);
    let a = "(async () => {\n"@ + sel.selector_js() + "\nif (nodes.length === 0) return 'No node found';\nnodes.forEach(n => { "@
        + "if ('resize' in n) "@;
    let c = ";"@ + " });\nreturn '"@ + "Size set"@ + " on ' + nodes.length + ' element(s)';"@ + "\n})()"@;
    assert(s =~= a + p + c);
    lemma_contains_mid(a, p, c);
}

/// Script that moves the chosen nodes.
pub open spec fn set_pos_js(sel: Sel, x: Seq<char>, y: Seq<char>) -> Seq<char> {
    set_each_js(sel.selector_js(), "n.x = "@
        + x
        + "; n.y = "@
        + y
        + ";"@, "Position set"@)
}

/// Script that moves the chosen nodes.
pub fn set_pos(sel: &Sel, x: &str, y: &str) -> (script: String)
    ensures
        script@ == set_pos_js(*sel, x@, y@),
{
    let mut mutate = String::from_str("n.x = ");
    mutate.append(x);
    mutate.append("; n.y = ");
    mutate.append(y);
    mutate.append(";");
    set_each(sel, mutate.as_str(), "Position set")
}

/// Script that sets the opacity of the chosen nodes.
pub open spec fn set_opacity_js(sel: Sel, v: Seq<char>) -> Seq<char> {
    set_each_js(sel.selector_js(), "if ('opacity' in n) n.opacity = "@
        + v
        + ";"@, "Opacity set"@)
}

/// Script that sets the opacity of the chosen nodes.
pub fn set_opacity(sel: &Sel, v: &str) -> (script: String)
    ensures
        script@ == set_opacity_js(*sel, v@),
{
    let mut mutate = String::from_str("if ('opacity' in n) n.opacity = ");
    mutate.append(v);
    mutate.append(";");
    set_each(sel, mutate.as_str(), "Opacity set")
}

/// Script that renames the chosen nodes.
pub open spec fn set_name_js(sel: Sel, name: Seq<char>) -> Seq<char> {
    set_each_js(sel.selector_js(), "n.name = "@
        + json_quote(name)
        + ";"@, "Renamed"@)
}

/// Script that renames the chosen nodes.
pub fn set_name(sel: &Sel, name: &str) -> (script: String)
    ensures
        script@ == set_name_js(*sel, name@),
{
    let name_j = js_string(name);
    let mut mutate = String::from_str("n.name = ");
    mutate.append(name_j.as_str());
    mutate.append(";");
    set_each(sel, mutate.as_str(), "Renamed")
}

/// Script for `set text`: loads each chosen text node's font and sets its characters.
pub open spec fn set_text_js(sel: Sel, text: Seq<char>) -> Seq<char> {
    wrap_async_js(
        sel.selector_js()
        + "\nif (nodes.length === 0) return 'No node found';\nlet count = 0;\nfor (const n of nodes) { if (n.type === 'TEXT') { await figma.loadFontAsync(n.fontName); n.characters = "@
        + json_quote(text)
        + "; count++; } }\nreturn 'Set text on ' + count + ' node(s)';"@
    )
}

/// Script that sets the characters of the chosen text nodes.
pub fn set_text(sel: &Sel, text: &str) -> (script: String)
    ensures
        script@ == set_text_js(*sel, text@),
{
    let selector = sel.js();
    let t = js_string(text);
    let mut body = String::from_str(selector.as_str());
    body.append("\nif (nodes.length === 0) return 'No node found';\nlet count = 0;\nfor (const n of nodes) { if (n.type === 'TEXT') { await figma.loadFontAsync(n.fontName); n.characters = ");
    body.append(t.as_str());
    body.append("; count++; } }\nreturn 'Set text on ' + count + ' node(s)';");
    wrap_async(body.as_str())
}

/// Script for `set scale`: rescales each chosen node by `factor`; unless `keep_spacing`, several nodes also keep their relative positions scaled from their top-left corner.
pub open spec fn set_scale_js(sel: Sel, factor: Seq<char>, keep_spacing: bool) -> Seq<char> {
    wrap_async_js(
        sel.selector_js()
        + "\nif (nodes.length === 0) return 'No node found';\nconst scaleSpacing = "@
        + bool_text(!keep_spacing)
        + ";\nconst origin = scaleSpacing && nodes.length > 1 ? { x: Math.min(...nodes.map(n => n.x || 0)), y: Math.min(...nodes.map(n => n.y || 0)) } : null;\nconst orig = nodes.map(n => ({ x: n.x || 0, y: n.y || 0 }));\nlet count = 0;\nfor (const n of nodes) { if (typeof n.rescale === 'function') { n.rescale("@
        + factor
        + "); count++; } else if ('resize' in n) { n.resize(n.width * "@
        + factor
        + ", n.height * "@
        + factor
        + "); count++; } }\nif (origin) { for (let i = 0; i < nodes.length; i++) { const n = nodes[i]; if (typeof n.x !== 'number') continue; n.x = origin.x + (orig[i].x - origin.x) * "@
        + factor
        + "; n.y = origin.y + (orig[i].y - origin.y) * "@
        + factor
        + "; } }\nreturn 'Scaled ' + count + ' element(s) by "@
        + factor
        + "';"@
    )
}

/// Script that scales the chosen nodes by `factor`.
pub fn set_scale(sel: &Sel, factor: &str, keep_spacing: bool) -> (script: String)
    ensures
        script@ == set_scale_js(*sel, factor@, keep_spacing),
{
    let selector = sel.js();
    let mut body = String::from_str(selector.as_str());
    body.append("\nif (nodes.length === 0) return 'No node found';\nconst scaleSpacing = ");
    body.append(bool_str(!keep_spacing));
    body.append(";\nconst origin = scaleSpacing && nodes.length > 1 ? { x: Math.min(...nodes.map(n => n.x || 0)), y: Math.min(...nodes.map(n => n.y || 0)) } : null;\nconst orig = nodes.map(n => ({ x: n.x || 0, y: n.y || 0 }));\nlet count = 0;\nfor (const n of nodes) { if (typeof n.rescale === 'function') { n.rescale(");
    body.append(factor);
    body.append("); count++; } else if ('resize' in n) { n.resize(n.width * ");
    body.append(factor);
    body.append(", n.height * ");
    body.append(factor);
    body.append("); count++; } }\nif (origin) { for (let i = 0; i < nodes.length; i++) { const n = nodes[i]; if (typeof n.x !== 'number') continue; n.x = origin.x + (orig[i].x - origin.x) * ");
    body.append(factor);
    body.append("; n.y = origin.y + (orig[i].y - origin.y) * ");
    body.append(factor);
    body.append("; } }\nreturn 'Scaled ' + count + ' element(s) by ");
    body.append(factor);
    body.append("';");
    wrap_async(body.as_str())
}

/// Script for `sizing hug` along `axis`: `h` and `both` set horizontal HUG, `v` and `both` vertical HUG.
pub open spec fn sizing_hug_js(axis: Seq<char>) -> Seq<char> {
    let h = if axis == "h"@ || axis == "both"@ { "if ('layoutSizingHorizontal' in n) n.layoutSizingHorizontal = 'HUG';"@ } else { Seq::empty() };
    let v = if axis == "v"@ || axis == "both"@ { "if ('layoutSizingVertical' in n) n.layoutSizingVertical = 'HUG';"@ } else { Seq::empty() };
    wrap_async_js(
        "const nodes = figma.currentPage.selection;\nif (nodes.length === 0) return 'No selection';\nnodes.forEach(n => { "@
        + h
        + " "@
        + v
        + " if (n.layoutMode) { n.primaryAxisSizingMode = 'AUTO'; n.counterAxisSizingMode = 'AUTO'; } });\nreturn 'Set hug on ' + nodes.length + ' element(s)';"@
    )
}

/// Script that sets hug sizing on the selection along `axis` (`h`, `v` or `both`).
pub fn sizing_hug(axis: &str) -> (script: String)
    ensures
        script@ == sizing_hug_js(axis@),
{
    let h: &str = if same_text(axis, "h") || same_text(axis, "both") { "if ('layoutSizingHorizontal' in n) n.layoutSizingHorizontal = 'HUG';" } else { "" };
    let v: &str = if same_text(axis, "v") || same_text(axis, "both") { "if ('layoutSizingVertical' in n) n.layoutSizingVertical = 'HUG';" } else { "" };
    proof { reveal_strlit(""); }
    let mut body = String::from_str("const nodes = figma.currentPage.selection;\nif (nodes.length === 0) return 'No selection';\nnodes.forEach(n => { ");
    body.append(h);
    body.append(" ");
    body.append(v);
    body.append(" if (n.layoutMode) { n.primaryAxisSizingMode = 'AUTO'; n.counterAxisSizingMode = 'AUTO'; } });\nreturn 'Set hug on ' + nodes.length + ' element(s)';");
    wrap_async(body.as_str())
}

/// Script for `sizing fill` along `axis`: `h` and `both` set horizontal FILL, `v` and `both` vertical FILL.
pub open spec fn sizing_fill_js(axis: Seq<char>) -> Seq<char> {
    let h = if axis == "h"@ || axis == "both"@ { "if ('layoutSizingHorizontal' in n) n.layoutSizingHorizontal = 'FILL';"@ } else { Seq::empty() };
    let v = if axis == "v"@ || axis == "both"@ { "if ('layoutSizingVertical' in n) n.layoutSizingVertical = 'FILL';"@ } else { Seq::empty() };
    wrap_async_js(
        "const nodes = figma.currentPage.selection;\nif (nodes.length === 0) return 'No selection';\nnodes.forEach(n => { "@
        + h
        + " "@
        + v
        + " });\nreturn 'Set fill on ' + nodes.length + ' element(s)';"@
    )
}

/// Script that sets fill sizing on the selection along `axis` (`h`, `v` or `both`).
pub fn sizing_fill(axis: &str) -> (script: String)
    ensures
        script@ == sizing_fill_js(axis@),
{
    let h: &str = if same_text(axis, "h") || same_text(axis, "both") { "if ('layoutSizingHorizontal' in n) n.layoutSizingHorizontal = 'FILL';" } else { "" };
    let v: &str = if same_text(axis, "v") || same_text(axis, "both") { "if ('layoutSizingVertical' in n) n.layoutSizingVertical = 'FILL';" } else { "" };
    proof { reveal_strlit(""); }
    let mut body = String::from_str("const nodes = figma.currentPage.selection;\nif (nodes.length === 0) return 'No selection';\nnodes.forEach(n => { ");
    body.append(h);
    body.append(" ");
    body.append(v);
    body.append(" });\nreturn 'Set fill on ' + nodes.length + ' element(s)';");
    wrap_async(body.as_str())
}

/// Script for `sizing fixed`: fixed sizing on both axes and a resize to `w`×`h`.
pub open spec fn sizing_fixed_js(w: Seq<char>, h: Seq<char>) -> Seq<char> {
    wrap_async_js(
        "const nodes = figma.currentPage.selection;\nif (nodes.length === 0) return 'No selection';\nnodes.forEach(n => { if ('layoutSizingHorizontal' in n) n.layoutSizingHorizontal = 'FIXED'; if ('layoutSizingVertical' in n) n.layoutSizingVertical = 'FIXED'; if ('resize' in n) n.resize("@
        + w
        + ", "@
        + h
        + "); });\nreturn 'Set fixed "@
        + w
        + "x"@
        + h
        + " on ' + nodes.length + ' element(s)';"@
    )
}

/// Script that sets fixed sizing and size on the selection.
pub fn sizing_fixed(w: &str, h: &str) -> (script: String)
    ensures
        script@ == sizing_fixed_js(w@, h@),
{
    let mut body = String::from_str("const nodes = figma.currentPage.selection;\nif (nodes.length === 0) return 'No selection';\nnodes.forEach(n => { if ('layoutSizingHorizontal' in n) n.layoutSizingHorizontal = 'FIXED'; if ('layoutSizingVertical' in n) n.layoutSizingVertical = 'FIXED'; if ('resize' in n) n.resize(");
    body.append(w);
    body.append(", ");
    body.append(h);
    body.append("); });\nreturn 'Set fixed ");
    body.append(w);
    body.append("x");
    body.append(h);
    body.append(" on ' + nodes.length + ' element(s)';");
    wrap_async(body.as_str())
}

/// Script for `padding`: top, right, bottom, left on each selected node that has padding.
pub open spec fn set_padding_js(t: Seq<char>, r: Seq<char>, b: Seq<char>, l: Seq<char>) -> Seq<char> {
    wrap_async_js(
        "const nodes = figma.currentPage.selection;\nif (nodes.length === 0) return 'No selection';\nnodes.forEach(n => { if ('paddingTop' in n) { n.paddingTop = "@
        + t
        + "; n.paddingRight = "@
        + r
        + "; n.paddingBottom = "@
        + b
        + "; n.paddingLeft = "@
        + l
        + "; } });\nreturn 'Set padding on ' + nodes.length + ' element(s)';"@
    )
}

/// Script that sets the four paddings of the selection.
pub fn set_padding(t: &str, r: &str, b: &str, l: &str) -> (script: String)
    ensures
        script@ == set_padding_js(t@, r@, b@, l@),
{
    let mut body = String::from_str("const nodes = figma.currentPage.selection;\nif (nodes.length === 0) return 'No selection';\nnodes.forEach(n => { if ('paddingTop' in n) { n.paddingTop = ");
    body.append(t);
    body.append("; n.paddingRight = ");
    body.append(r);
    body.append("; n.paddingBottom = ");
    body.append(b);
    body.append("; n.paddingLeft = ");
    body.append(l);
    body.append("; } });\nreturn 'Set padding on ' + nodes.length + ' element(s)';");
    wrap_async(body.as_str())
}

/// Law: `padding t r b l` sets each side from its own argument, in CSS
/// order: top from `t`, right from `r`, bottom from `b`, left from `l`.
pub proof fn lemma_padding_sides_in_order(t: Seq<char>, r: Seq<char>, b: Seq<char>, l: Seq<char>)
    ensures
        contains_text(set_padding_js(t, r, b, l), "n.paddingTop = "@ + t + ";"@),
        contains_text(set_padding_js(t, r, b, l), "n.paddingRight = "@ + r + ";"@),
        contains_text(set_padding_js(t, r, b, l), "n.paddingBottom = "@ + b + ";"@),
        contains_text(set_padding_js(t, r, b, l), "n.paddingLeft = "@ + l + ";"@),
{
    reveal_strlit("const nodes = figma.currentPage.selection;\nif (nodes.length === 0) return 'No selection';\nnodes.forEach(n => { if ('paddingTop' in n) { n.paddingTop = ");
    reveal_strlit("const nodes = figma.currentPage.selection;\nif (nodes.length === 0) return 'No selection';\nnodes.forEach(n => { if ('paddingTop' in n) { ");
    reveal_strlit("n.paddingTop = ");
    reveal_strlit("; n.paddingRight = ");
    reveal_strlit("; n.paddingBottom = ");
    reveal_strlit("; n.paddingLeft = ");
    reveal_strlit("n.paddingRight = ");
    reveal_strlit("n.paddingBottom = ");
    reveal_strlit("n.paddingLeft = ");
    reveal_strlit("; } });\nreturn 'Set padding on ' + nodes.length + ' element(s)';");
    reveal_strlit(" } });\nreturn 'Set padding on ' + nodes.length + ' element(s)';");
    reveal_strlit(";");
    reveal_strlit("; ");
    let top = "n.paddingTop = "@ + t + ";"@;
    let right = "n.paddingRight = "@ + r + ";"@;
    let bottom = "n.paddingBottom = "@ + b + ";"@;
    let left = "n.paddingLeft = "@ + l + ";"@;
    let open = "(async () => {\n"@ + "const nodes = figma.currentPage.selection;\nif (nodes.length === 0) return 'No selection';\nnodes.forEach(n => { if ('paddingTop' in n) { "@;
    let close = " } });\nreturn 'Set padding on ' + nodes.length + ' element(s)';"@ + "\n})()"@;
    let sp = " "@;
    reveal_strlit(" ");
    assert("const nodes = figma.currentPage.selection;\nif (nodes.length === 0) return 'No selection';\nnodes.forEach(n => { if ('paddingTop' in n) { n.paddingTop = "@ =~= "const nodes = figma.currentPage.selection;\nif (nodes.length === 0) return 'No selection';\nnodes.forEach(n => { if ('paddingTop' in n) { "@ + "n.paddingTop = "@);
    assert("; n.paddingRight = "@ =~= ";"@ + sp + "n.paddingRight = "@);
    assert("; n.paddingBottom = "@ =~= ";"@ + sp + "n.paddingBottom = "@);
    assert("; n.paddingLeft = "@ =~= ";"@ + sp + "n.paddingLeft = "@);
    assert("; } });\nreturn 'Set padding on ' + nodes.length + ' element(s)';"@ =~= ";"@ + " } });\nreturn 'Set padding on ' + nodes.length + ' element(s)';"@);
    let s = set_padding_js(t, r, b, l);
    assert(s =~= open + top + (sp + right + sp + bottom + sp + left + close));
    lemma_contains_mid(open, top, sp + right + sp + bottom + sp + left + close);
    assert(s =~= (open + top + sp) + right + (sp + bottom + sp + left + close));
    lemma_contains_mid(open + top + sp, right, sp + bottom + sp + left + close);
    assert(s =~= (open + top + sp + right + sp) + bottom + (sp + left + close));
    lemma_contains_mid(open + top + sp + right + sp, bottom, sp + left + close);
    assert(s =~= (open + top + sp + right + sp + bottom + sp) + left + close);
    lemma_contains_mid(open + top + sp + right + sp + bottom + sp, left, close);
}

/// Script for `gap`.
pub open spec fn set_gap_js(value: Seq<char>) -> Seq<char> {
    wrap_async_js(
        "const nodes = figma.currentPage.selection;\nif (nodes.length === 0) return 'No selection';\nnodes.forEach(n => { if ('itemSpacing' in n) n.itemSpacing = "@
        + value
        + "; });\nreturn 'Set gap "@
        + value
        + " on ' + nodes.length + ' element(s)';"@
    )
}

/// Script that sets the auto-layout gap of the selection.
pub fn set_gap(value: &str) -> (script: String)
    ensures
        script@ == set_gap_js(value@),
{
    let mut body = String::from_str("const nodes = figma.currentPage.selection;\nif (nodes.length === 0) return 'No selection';\nnodes.forEach(n => { if ('itemSpacing' in n) n.itemSpacing = ");
    body.append(value);
    body.append("; });\nreturn 'Set gap ");
    body.append(value);
    body.append(" on ' + nodes.length + ' element(s)';");
    wrap_async(body.as_str())
}

/// The alignment value that a lower-cased alignment name selects.
pub open spec fn alignment_text(lowered: Seq<char>) -> Seq<char> {
    if lowered == "start"@ {
        "MIN"@
    } else if lowered == "end"@ {
        "MAX"@
    } else if lowered == "stretch"@ {
        "STRETCH"@
    } else {
        "CENTER"@
    }
}

/// The Figma alignment for a lower-cased name: `start`, `end`, `stretch`,
/// anything else `CENTER`.
pub fn alignment_value(lowered: &str) -> (r: &'static str)
    ensures
        r@ == alignment_text(lowered@),
{
    if same_text(lowered, "start") {
        "MIN"
    } else if same_text(lowered, "end") {
        "MAX"
    } else if same_text(lowered, "stretch") {
        "STRETCH"
    } else {
        "CENTER"
    }
}

/// Script for `align`: the alignment that the lower-cased name selects, on both axes.
pub open spec fn align_js(alignment: Seq<char>) -> Seq<char> {
    let val = alignment_text(lowercased(alignment));
    wrap_async_js(
        "const nodes = figma.currentPage.selection;\nif (nodes.length === 0) return 'No selection';\nnodes.forEach(n => { if ('primaryAxisAlignItems' in n) n.primaryAxisAlignItems = '"@
        + val
        + "'; if ('counterAxisAlignItems' in n) n.counterAxisAlignItems = '"@
        + val
        + "'; });\nreturn 'Aligned ' + nodes.length + ' element(s)';"@
    )
}

/// Script that aligns the items of the selection.
pub fn align(alignment: &str) -> (script: String)
    ensures
        script@ == align_js(alignment@),
{
    let lowered = lowercase(alignment);
    let val = alignment_value(lowered.as_str());
    let mut body = String::from_str("const nodes = figma.currentPage.selection;\nif (nodes.length === 0) return 'No selection';\nnodes.forEach(n => { if ('primaryAxisAlignItems' in n) n.primaryAxisAlignItems = '");
    body.append(val);
    body.append("'; if ('counterAxisAlignItems' in n) n.counterAxisAlignItems = '");
    body.append(val);
    body.append("'; });\nreturn 'Aligned ' + nodes.length + ' element(s)';");
    wrap_async(body.as_str())
}

/// Script that selects the nodes and finds the variable named `var_name`
/// (or ending in `/var_name`), returning early when either is missing.
pub open spec fn bind_lookup_js(sel: Sel, var_name: Seq<char>) -> Seq<char> {
    sel.selector_js()
        + "\nconst vars = await figma.variables.getLocalVariablesAsync();\nconst v = vars.find(v => v.name === "@
        + json_quote(var_name)
        + " || v.name.endsWith("@
        + json_quote("/"@ + var_name)
        + "));\nif (!v) return 'Variable not found: ' + "@
        + json_quote(var_name)
        + ";\nif (nodes.length === 0) return 'No node selected';"@
}

fn bind_lookup(sel: &Sel, var_name: &str) -> (r: String)
    ensures
        r@ == bind_lookup_js(*sel, var_name@),
{
    let selector = sel.js();
    let name = js_string(var_name);
    let mut slash_text = String::from_str("/");
    slash_text.append(var_name);
    let slash = js_string(slash_text.as_str());
    let mut s = String::from_str(selector.as_str());
    s.append("\nconst vars = await figma.variables.getLocalVariablesAsync();\nconst v = vars.find(v => v.name === ");
    s.append(name.as_str());
    s.append(" || v.name.endsWith(");
    s.append(slash.as_str());
    s.append("));\nif (!v) return 'Variable not found: ' + ");
    s.append(name.as_str());
    s.append(";\nif (nodes.length === 0) return 'No node selected';");
    s
}

/// Script that binds a variable to the first fill of the chosen nodes.
pub open spec fn bind_fill_js(sel: Sel, var_name: Seq<char>) -> Seq<char> {
    wrap_async_js(
        bind_lookup_js(sel, var_name)
        + "\nnodes.forEach(n => { if ('fills' in n && n.fills.length > 0) n.fills = [figma.variables.setBoundVariableForPaint(n.fills[0], 'color', v)]; });\nreturn 'Bound ' + v.name + ' to fill on ' + nodes.length + ' element(s)';"@
    )
}

/// Script that binds a variable to the first fill of the chosen nodes.
pub fn bind_fill(sel: &Sel, var_name: &str) -> (script: String)
    ensures
        script@ == bind_fill_js(*sel, var_name@),
{
    let lk = bind_lookup(sel, var_name);
    let mut body = String::from_str(lk.as_str());
    body.append("\nnodes.forEach(n => { if ('fills' in n && n.fills.length > 0) n.fills = [figma.variables.setBoundVariableForPaint(n.fills[0], 'color', v)]; });\nreturn 'Bound ' + v.name + ' to fill on ' + nodes.length + ' element(s)';");
    wrap_async(body.as_str())
}

/// Script that binds a variable to the stroke of the chosen nodes.
pub open spec fn bind_stroke_js(sel: Sel, var_name: Seq<char>) -> Seq<char> {
    wrap_async_js(
        bind_lookup_js(sel, var_name)
        + "\nnodes.forEach(n => { if ('strokes' in n) { const s = n.strokes[0] || { type: 'SOLID', color: {r:0,g:0,b:0} }; n.strokes = [figma.variables.setBoundVariableForPaint(s, 'color', v)]; } });\nreturn 'Bound ' + v.name + ' to stroke on ' + nodes.length + ' element(s)';"@
    )
}

/// Script that binds a variable to the stroke of the chosen nodes.
pub fn bind_stroke(sel: &Sel, var_name: &str) -> (script: String)
    ensures
        script@ == bind_stroke_js(*sel, var_name@),
{
    let lk = bind_lookup(sel, var_name);
    let mut body = String::from_str(lk.as_str());
    body.append("\nnodes.forEach(n => { if ('strokes' in n) { const s = n.strokes[0] || { type: 'SOLID', color: {r:0,g:0,b:0} }; n.strokes = [figma.variables.setBoundVariableForPaint(s, 'color', v)]; } });\nreturn 'Bound ' + v.name + ' to stroke on ' + nodes.length + ' element(s)';");
    wrap_async(body.as_str())
}

/// Script that binds the variable to `field` on each chosen node that has it.
pub open spec fn bind_prop_js(sel: Sel, var_name: Seq<char>, field: Seq<char>) -> Seq<char> {
    wrap_async_js(
        bind_lookup_js(sel, var_name)
        + "\nnodes.forEach(n => { if ('"@
        + field
        + "' in n) n.setBoundVariable('"@
        + field
        + "', v); });\nreturn 'Bound ' + v.name + ' to "@
        + field
        + " on ' + nodes.length + ' element(s)';"@
    )
}

/// Script that binds a variable to the node property `field`.
pub fn bind_prop(sel: &Sel, var_name: &str, field: &str) -> (script: String)
    ensures
        script@ == bind_prop_js(*sel, var_name@, field@),
{
    let lk = bind_lookup(sel, var_name);
    let mut body = String::from_str(lk.as_str());
    body.append("\nnodes.forEach(n => { if ('");
    body.append(field);
    body.append("' in n) n.setBoundVariable('");
    body.append(field);
    body.append("', v); });\nreturn 'Bound ' + v.name + ' to ");
    body.append(field);
    body.append(" on ' + nodes.length + ' element(s)';");
    wrap_async(body.as_str())
}

/// The padding property for a side name: `padding` + the side with its
/// first character upper-cased.
pub open spec fn padding_property(side: Seq<char>) -> Seq<char> {
    "padding"@ + uppercased(side.take(1)) + side.skip(1)
}

/// The padding sides that `side` names: all four for `all`, else the one
/// `padding_property`.
pub open spec fn padding_sides_js(side: Seq<char>) -> Seq<char> {
    if side == "all"@ {
        "['paddingTop','paddingRight','paddingBottom','paddingLeft']"@
    } else {
        "["@ + json_quote(padding_property(side)) + "]"@
    }
}

/// A side argument that slicing off its first byte does not panic on.
pub open spec fn side_sliceable(side: Seq<char>) -> bool {
    side == "all"@ || (side.len() > 0 && (side[0] as u32) < 0x80)
}

/// Whether `bind_padding` can read `side` (`all`, or a side whose first
/// character is ASCII).
pub fn side_is_sliceable(side: &str) -> (r: bool)
    ensures
        r == side_sliceable(side@),
{
    if same_text(side, "all") {
        true
    } else {
        side.unicode_len() > 0 && (side.get_char(0) as u32) < 0x80
    }
}

/// Script that binds the variable to the padding sides that `side` names.
pub open spec fn bind_padding_js(sel: Sel, var_name: Seq<char>, side: Seq<char>) -> Seq<char> {
    let sides = padding_sides_js(side);
    wrap_async_js(
        bind_lookup_js(sel, var_name)
        + "\nconst sides = "@
        + sides
        + ";\nnodes.forEach(n => { sides.forEach(s => { if (s in n) n.setBoundVariable(s, v); }); });\nreturn 'Bound ' + v.name + ' to padding on ' + nodes.length + ' element(s)';"@
    )
}

/// Script that binds a variable to the padding of the chosen nodes.
pub fn bind_padding(sel: &Sel, var_name: &str, side: &str) -> (script: String)
    requires
        side_sliceable(side@),
    ensures
        script@ == bind_padding_js(*sel, var_name@, side@),
{
    let sides = if same_text(side, "all") {
        String::from_str("['paddingTop','paddingRight','paddingBottom','paddingLeft']")
    } else {
        let n = side.unicode_len();
        let first = uppercase(side.substring_char(0, 1));
        let mut cap = String::from_str("padding");
        cap.append(first.as_str());
        cap.append(side.substring_char(1, n));
        let mut s = String::from_str("[");
        s.append(js_string(cap.as_str()).as_str());
        s.append("]");
        s
    };
    let lk = bind_lookup(sel, var_name);
    let mut body = String::from_str(lk.as_str());
    body.append("\nconst sides = ");
    body.append(sides.as_str());
    body.append(";\nnodes.forEach(n => { sides.forEach(s => { if (s in n) n.setBoundVariable(s, v); }); });\nreturn 'Bound ' + v.name + ' to padding on ' + nodes.length + ' element(s)';");
    wrap_async(body.as_str())
}

/// Script for `select`.
pub open spec fn select_js(node_id: Seq<char>) -> Seq<char> {
    wrap_async_js(
        "const n = await figma.getNodeByIdAsync("@
        + json_quote(node_id)
        + "); if (!n) return 'Node not found'; figma.currentPage.selection = [n]; figma.viewport.scrollAndZoomIntoView([n]); return { id: n.id, name: n.name };"@
    )
}

/// Script that selects a node and scrolls to it.
pub fn select(node_id: &str) -> (script: String)
    ensures
        script@ == select_js(node_id@),
{
    let id = js_string(node_id);
    let mut body = String::from_str("const n = await figma.getNodeByIdAsync(");
    body.append(id.as_str());
    body.append("); if (!n) return 'Node not found'; figma.currentPage.selection = [n]; figma.viewport.scrollAndZoomIntoView([n]); return { id: n.id, name: n.name };");
    wrap_async(body.as_str())
}

/// Script for `delete`: the node with the id, or every selected node.
pub open spec fn delete_js(node_id: Option<Seq<char>>) -> Seq<char> {
    match node_id {
        Some(id) => wrap_async_js(
            "const n = await figma.getNodeByIdAsync("@
        + json_quote(id)
        + "); if (!n) return 'Node not found'; n.remove(); return 'Deleted ' + "@
        + json_quote(id)
        + ";"@
        ),
        None => wrap_async_js("const sel = figma.currentPage.selection; if (sel.length === 0) return 'No selection'; const c = sel.length; sel.forEach(n => n.remove()); return 'Deleted ' + c + ' element(s)';"@),
    }
}

/// Script that deletes a node by id, or the selection.
pub fn delete(node_id: Option<&str>) -> (script: String)
    ensures
        script@ == delete_js(opt_text(node_id)),
{
    match node_id {
        Some(node) => {
            let id = js_string(node);
            let mut body = String::from_str("const n = await figma.getNodeByIdAsync(");
            body.append(id.as_str());
            body.append("); if (!n) return 'Node not found'; n.remove(); return 'Deleted ' + ");
            body.append(id.as_str());
            body.append(";");
            wrap_async(body.as_str())
        },
        None => wrap_async("const sel = figma.currentPage.selection; if (sel.length === 0) return 'No selection'; const c = sel.length; sel.forEach(n => n.remove()); return 'Deleted ' + c + ' element(s)';"),
    }
}

/// Script for `duplicate`.
pub open spec fn duplicate_js(node_id: Option<Seq<char>>, offset: Seq<char>) -> Seq<char> {
    match node_id {
        Some(id) => wrap_async_js(
            "const n = await figma.getNodeByIdAsync("@
        + json_quote(id)
        + "); if (!n) return 'Node not found'; const c = n.clone(); c.x += "@
        + offset
        + "; c.y += "@
        + offset
        + "; figma.currentPage.selection = [c]; return { id: c.id };"@
        ),
        None => wrap_async_js(
            "const sel = figma.currentPage.selection; if (sel.length === 0) return 'No selection'; const clones = sel.map(n => { const c = n.clone(); c.x += "@
        + offset
        + "; c.y += "@
        + offset
        + "; return c; }); figma.currentPage.selection = clones; return 'Duplicated ' + clones.length + ' element(s)';"@
        ),
    }
}

/// Script that duplicates a node by id, or the selection, shifted by `offset`.
pub fn duplicate(node_id: Option<&str>, offset: &str) -> (script: String)
    ensures
        script@ == duplicate_js(opt_text(node_id), offset@),
{
    match node_id {
        Some(node) => {
            let id = js_string(node);
            let mut body = String::from_str("const n = await figma.getNodeByIdAsync(");
            body.append(id.as_str());
            body.append("); if (!n) return 'Node not found'; const c = n.clone(); c.x += ");
            body.append(offset);
            body.append("; c.y += ");
            body.append(offset);
            body.append("; figma.currentPage.selection = [c]; return { id: c.id };");
            wrap_async(body.as_str())
        },
        None => {
            let mut body = String::from_str("const sel = figma.currentPage.selection; if (sel.length === 0) return 'No selection'; const clones = sel.map(n => { const c = n.clone(); c.x += ");
            body.append(offset);
            body.append("; c.y += ");
            body.append(offset);
            body.append("; return c; }); figma.currentPage.selection = clones; return 'Duplicated ' + clones.length + ' element(s)';");
            wrap_async(body.as_str())
        },
    }
}

/// Script that sets the fills of the node (or the selection for `selected`) to the one paint `paint_json`.
pub open spec fn apply_paint_js(node_id: Seq<char>, paint_json: Seq<char>) -> Seq<char> {
    wrap_async_js(
        "await figma.loadAllPagesAsync();\nconst id = "@
        + json_quote(node_id)
        + ";\nlet n = /^selected$/i.test(id) ? figma.currentPage.selection[0] : await figma.getNodeByIdAsync(id);\nif (!n) throw new Error('Node not found: ' + id);\nif (!('fills' in n)) throw new Error('Node does not support fills: ' + n.type);\nn.fills = ["@
        + paint_json
        + "];\nreturn { name: n.name, type: n.type };"@
    )
}

/// Set a node's fills to a single (gradient) paint, given as its JSON text.
pub fn apply_paint(node_id: &str, paint_json: &str) -> (script: String)
    ensures
        script@ == apply_paint_js(node_id@, paint_json@),
{
    let id = js_string(node_id);
    let mut body = String::from_str("await figma.loadAllPagesAsync();\nconst id = ");
    body.append(id.as_str());
    body.append(";\nlet n = /^selected$/i.test(id) ? figma.currentPage.selection[0] : await figma.getNodeByIdAsync(id);\nif (!n) throw new Error('Node not found: ' + id);\nif (!('fills' in n)) throw new Error('Node does not support fills: ' + n.type);\nn.fills = [");
    body.append(paint_json);
    body.append("];\nreturn { name: n.name, type: n.type };");
    wrap_async(body.as_str())
}

/// The parts of a mesh-gradient recipe that the script reads, each as its
/// JSON text: `base` colour, `blobs` array and `blurFraction`, when present.
pub struct MeshRecipe {
    pub base: Option<String>,
    pub blobs: Option<String>,
    pub blur_fraction: Option<String>,
}

/// Script for the mesh wallpaper: the target is the frame `apply_to` (or the selection for `selected`), emptied, or a new `w`×`h` frame named `name` right of the page content; the recipe's base (default `"#000000"`), blobs (default `[]`) and blur fraction (default `0.42`) fill it.
pub open spec fn apply_mesh_wallpaper_js(apply_to: Option<Seq<char>>, recipe: MeshRecipe, w: Seq<char>, h: Seq<char>, name: Seq<char>) -> Seq<char> {
    let target = match apply_to {
        Some(id) => "const id = "@
        + json_quote(id)
        + ";\nif (/^selected$/i.test(id)) { __target = figma.currentPage.selection[0]; if (!__target) throw new Error('Nothing selected'); } else { __target = await figma.getNodeByIdAsync(id); if (!__target) throw new Error('Node not found: ' + id); }\nif (__target.type !== 'FRAME') throw new Error('Mesh requires a FRAME target; got ' + __target.type);\nfor (const c of [...__target.children]) c.remove();"@,
        None => "__target = figma.createFrame();\n__target.name = "@
        + json_quote(name)
        + ";\n__target.resize("@
        + w
        + ", "@
        + h
        + ");\nlet __x = 0; figma.currentPage.children.forEach(n => { __x = Math.max(__x, n.x + (n.width || 0)); });\n__target.x = __x + 100; __target.y = 0;"@,
    };
    let base = text_or(opt_string_text(recipe.base), "\"#000000\""@);
    let blobs = text_or(opt_string_text(recipe.blobs), "[]"@);
    let blur = text_or(opt_string_text(recipe.blur_fraction), "0.42"@);
    wrap_async_js(
        "await figma.loadAllPagesAsync();\nconst __hex = (h) => { h = h.replace('#',''); return { r: parseInt(h.slice(0,2),16)/255, g: parseInt(h.slice(2,4),16)/255, b: parseInt(h.slice(4,6),16)/255 }; };\nlet __target;\n"@
        + target
        + "\nconst W = __target.width, H = __target.height, D = Math.min(W, H);\n__target.clipsContent = true;\n__target.fills = [{ type:'SOLID', color: __hex("@
        + base
        + "), opacity:1, visible:true, blendMode:'NORMAL' }];\nconst __blobs = "@
        + blobs
        + ";\nconst __blur = Math.round(D * "@
        + blur
        + ");\nfor (const b of __blobs) { const e = figma.createEllipse(); const R = Math.round(D * b.r); e.resize(R*2, R*2); e.x = b.fx*W - R; e.y = b.fy*H - R; e.fills = [{ type:'SOLID', color: __hex(b.color), opacity:1, visible:true, blendMode:'NORMAL' }]; e.effects = [{ type:'LAYER_BLUR', radius: Math.round(__blur * (b.blurMul || 1)), visible: true }]; __target.appendChild(e); }\nfigma.viewport.scrollAndZoomIntoView([__target]);\nreturn { id: __target.id, name: __target.name, blobs: __blobs.length, blur: __blur, w: W, h: H };"@
    )
}

/// Build (or populate) a mesh-gradient frame from a recipe { base, blobs, blurFraction }. When `apply_to` is None, creates a new W×H frame; else populates the target frame.
pub fn apply_mesh_wallpaper(apply_to: Option<&str>, recipe: &MeshRecipe, w: &str, h: &str, name: &str) -> (script: String)
    ensures
        script@ == apply_mesh_wallpaper_js(opt_text(apply_to), *recipe, w@, h@, name@),
{
    let target = match apply_to {
        Some(node) => {
            let id = js_string(node);
            let mut t = String::from_str("const id = ");
            t.append(id.as_str());
            t.append(";\nif (/^selected$/i.test(id)) { __target = figma.currentPage.selection[0]; if (!__target) throw new Error('Nothing selected'); } else { __target = await figma.getNodeByIdAsync(id); if (!__target) throw new Error('Node not found: ' + id); }\nif (__target.type !== 'FRAME') throw new Error('Mesh requires a FRAME target; got ' + __target.type);\nfor (const c of [...__target.children]) c.remove();");
            t
        },
        None => {
            let name_j = js_string(name);
            let mut t = String::from_str("__target = figma.createFrame();\n__target.name = ");
            t.append(name_j.as_str());
            t.append(";\n__target.resize(");
            t.append(w);
            t.append(", ");
            t.append(h);
            t.append(");\nlet __x = 0; figma.currentPage.children.forEach(n => { __x = Math.max(__x, n.x + (n.width || 0)); });\n__target.x = __x + 100; __target.y = 0;");
            t
        },
    };
    let base = str_or(&recipe.base, "\"#000000\"");
    let blobs = str_or(&recipe.blobs, "[]");
    let blur = str_or(&recipe.blur_fraction, "0.42");
    let mut body = String::from_str("await figma.loadAllPagesAsync();\nconst __hex = (h) => { h = h.replace('#',''); return { r: parseInt(h.slice(0,2),16)/255, g: parseInt(h.slice(2,4),16)/255, b: parseInt(h.slice(4,6),16)/255 }; };\nlet __target;\n");
    body.append(target.as_str());
    body.append("\nconst W = __target.width, H = __target.height, D = Math.min(W, H);\n__target.clipsContent = true;\n__target.fills = [{ type:'SOLID', color: __hex(");
    body.append(base);
    body.append("), opacity:1, visible:true, blendMode:'NORMAL' }];\nconst __blobs = ");
    body.append(blobs);
    body.append(";\nconst __blur = Math.round(D * ");
    body.append(blur);
    body.append(");\nfor (const b of __blobs) { const e = figma.createEllipse(); const R = Math.round(D * b.r); e.resize(R*2, R*2); e.x = b.fx*W - R; e.y = b.fy*H - R; e.fills = [{ type:'SOLID', color: __hex(b.color), opacity:1, visible:true, blendMode:'NORMAL' }]; e.effects = [{ type:'LAYER_BLUR', radius: Math.round(__blur * (b.blurMul || 1)), visible: true }]; __target.appendChild(e); }\nfigma.viewport.scrollAndZoomIntoView([__target]);\nreturn { id: __target.id, name: __target.name, blobs: __blobs.length, blur: __blur, w: W, h: H };");
    wrap_async(body.as_str())
}

/// Script for `figjam sticky`: a sticky at (`x`, `y`) with the text, filled with the colour when it is a hex colour.
pub open spec fn figjam_sticky_js(text: Seq<char>, x: Seq<char>, y: Seq<char>, color: Option<Seq<char>>) -> Seq<char> {
    let fill = match color {
        Some(c) => match hex_color(c) {
            Some((r, g, b)) => "sticky.fills = [{ type: 'SOLID', color: { r: "@
        + channel_text(r)
        + ", g: "@
        + channel_text(g)
        + ", b: "@
        + channel_text(b)
        + " } }];"@,
            None => Seq::empty(),
        },
        None => Seq::empty(),
    };
    wrap_async_js(
        "const sticky = figma.createSticky();\nsticky.x = "@
        + x
        + "; sticky.y = "@
        + y
        + ";\n"@
        + fill
        + "\nawait figma.loadFontAsync({ family: 'Inter', style: 'Medium' });\nsticky.text.characters = "@
        + json_quote(text)
        + ";\nreturn { id: sticky.id, x: sticky.x, y: sticky.y };"@
    )
}

/// Script that creates a FigJam sticky with optional hex colour.
pub fn figjam_sticky(text: &str, x: &str, y: &str, color: Option<&str>) -> (script: String)
    ensures
        script@ == figjam_sticky_js(text@, x@, y@, opt_text(color)),
{
    let fill = match color {
        Some(c) => match parse_hex_color(c) {
            Some((r, g, b)) => {
            let mut f = String::from_str("sticky.fills = [{ type: 'SOLID', color: { r: ");
            f.append(channel_str(r));
            f.append(", g: ");
            f.append(channel_str(g));
            f.append(", b: ");
            f.append(channel_str(b));
            f.append(" } }];");
                f
            },
            None => String::new(),
        },
        None => String::new(),
    };
    let t = js_string(text);
    let mut body = String::from_str("const sticky = figma.createSticky();\nsticky.x = ");
    body.append(x);
    body.append("; sticky.y = ");
    body.append(y);
    body.append(";\n");
    body.append(fill.as_str());
    body.append("\nawait figma.loadFontAsync({ family: 'Inter', style: 'Medium' });\nsticky.text.characters = ");
    body.append(t.as_str());
    body.append(";\nreturn { id: sticky.id, x: sticky.x, y: sticky.y };");
    wrap_async(body.as_str())
}

/// Script for `figjam shape`.
pub open spec fn figjam_shape_js(text: Seq<char>, x: Seq<char>, y: Seq<char>, w: Seq<char>, h: Seq<char>, shape_type: Seq<char>) -> Seq<char> {
    wrap_async_js(
        "const shape = figma.createShapeWithText();\nshape.shapeType = "@
        + json_quote(shape_type)
        + ";\nshape.x = "@
        + x
        + "; shape.y = "@
        + y
        + ";\nshape.resize("@
        + w
        + ", "@
        + h
        + ");\nif (shape.text) { await figma.loadFontAsync({ family: 'Inter', style: 'Medium' }); shape.text.characters = "@
        + json_quote(text)
        + "; }\nreturn { id: shape.id, x: shape.x, y: shape.y };"@
    )
}

/// Script that creates a FigJam shape with text.
pub fn figjam_shape(text: &str, x: &str, y: &str, w: &str, h: &str, shape_type: &str) -> (script: String)
    ensures
        script@ == figjam_shape_js(text@, x@, y@, w@, h@, shape_type@),
{
    let st = js_string(shape_type);
    let t = js_string(text);
    let mut body = String::from_str("const shape = figma.createShapeWithText();\nshape.shapeType = ");
    body.append(st.as_str());
    body.append(";\nshape.x = ");
    body.append(x);
    body.append("; shape.y = ");
    body.append(y);
    body.append(";\nshape.resize(");
    body.append(w);
    body.append(", ");
    body.append(h);
    body.append(");\nif (shape.text) { await figma.loadFontAsync({ family: 'Inter', style: 'Medium' }); shape.text.characters = ");
    body.append(t.as_str());
    body.append("; }\nreturn { id: shape.id, x: shape.x, y: shape.y };");
    wrap_async(body.as_str())
}

/// Script for `figjam text`.
pub open spec fn figjam_text_js(content: Seq<char>, x: Seq<char>, y: Seq<char>, size: Seq<char>) -> Seq<char> {
    wrap_async_js(
        "const textNode = figma.createText();\ntextNode.x = "@
        + x
        + "; textNode.y = "@
        + y
        + ";\nawait figma.loadFontAsync({ family: 'Inter', style: 'Medium' });\ntextNode.fontName = { family: 'Inter', style: 'Medium' };\ntextNode.characters = "@
        + json_quote(content)
        + ";\ntextNode.fontSize = "@
        + size
        + ";\nreturn { id: textNode.id, x: textNode.x, y: textNode.y };"@
    )
}

/// Script that creates a FigJam text node.
pub fn figjam_text(content: &str, x: &str, y: &str, size: &str) -> (script: String)
    ensures
        script@ == figjam_text_js(content@, x@, y@, size@),
{
    let t = js_string(content);
    let mut body = String::from_str("const textNode = figma.createText();\ntextNode.x = ");
    body.append(x);
    body.append("; textNode.y = ");
    body.append(y);
    body.append(";\nawait figma.loadFontAsync({ family: 'Inter', style: 'Medium' });\ntextNode.fontName = { family: 'Inter', style: 'Medium' };\ntextNode.characters = ");
    body.append(t.as_str());
    body.append(";\ntextNode.fontSize = ");
    body.append(size);
    body.append(";\nreturn { id: textNode.id, x: textNode.x, y: textNode.y };");
    wrap_async(body.as_str())
}

/// Script for `figjam connect`.
pub open spec fn figjam_connect_js(start_id: Seq<char>, end_id: Seq<char>) -> Seq<char> {
    wrap_async_js(
        "const startNode = await figma.getNodeByIdAsync("@
        + json_quote(start_id)
        + ");\nconst endNode = await figma.getNodeByIdAsync("@
        + json_quote(end_id)
        + ");\nif (!startNode || !endNode) return { error: 'Node not found' };\nconst connector = figma.createConnector();\nconnector.connectorStart = { endpointNodeId: startNode.id, magnet: 'AUTO' };\nconnector.connectorEnd = { endpointNodeId: endNode.id, magnet: 'AUTO' };\nreturn { id: connector.id };"@
    )
}

/// Script that connects two FigJam nodes.
pub fn figjam_connect(start_id: &str, end_id: &str) -> (script: String)
    ensures
        script@ == figjam_connect_js(start_id@, end_id@),
{
    let s = js_string(start_id);
    let e = js_string(end_id);
    let mut body = String::from_str("const startNode = await figma.getNodeByIdAsync(");
    body.append(s.as_str());
    body.append(");\nconst endNode = await figma.getNodeByIdAsync(");
    body.append(e.as_str());
    body.append(");\nif (!startNode || !endNode) return { error: 'Node not found' };\nconst connector = figma.createConnector();\nconnector.connectorStart = { endpointNodeId: startNode.id, magnet: 'AUTO' };\nconnector.connectorEnd = { endpointNodeId: endNode.id, magnet: 'AUTO' };\nreturn { id: connector.id };");
    wrap_async(body.as_str())
}

/// Script for `figjam move`.
pub open spec fn figjam_move_js(node_id: Seq<char>, x: Seq<char>, y: Seq<char>) -> Seq<char> {
    wrap_async_js(
        "const n = await figma.getNodeByIdAsync("@
        + json_quote(node_id)
        + "); if (!n) return { error: 'Node not found' }; n.x = "@
        + x
        + "; n.y = "@
        + y
        + "; return { id: n.id, x: n.x, y: n.y };"@
    )
}

/// Script that moves a FigJam node.
pub fn figjam_move(node_id: &str, x: &str, y: &str) -> (script: String)
    ensures
        script@ == figjam_move_js(node_id@, x@, y@),
{
    let id = js_string(node_id);
    let mut body = String::from_str("const n = await figma.getNodeByIdAsync(");
    body.append(id.as_str());
    body.append("); if (!n) return { error: 'Node not found' }; n.x = ");
    body.append(x);
    body.append("; n.y = ");
    body.append(y);
    body.append("; return { id: n.id, x: n.x, y: n.y };");
    wrap_async(body.as_str())
}

/// Law: `figjam move id x y` looks up the node `id` and puts it at `x`
/// across and `y` down: the script sets `n.x` to `x` and `n.y` to `y`.
pub proof fn lemma_figjam_move_x_then_y(node_id: Seq<char>, x: Seq<char>, y: Seq<char>)
    ensures
        contains_text(figjam_move_js(node_id, x, y), "figma.getNodeByIdAsync("@ + json_quote(node_id) + ")"@),
        contains_text(figjam_move_js(node_id, x, y), "n.x = "@ + x + ";"@),
        contains_text(figjam_move_js(node_id, x, y), "n.y = "@ + y + ";"@),
{
    reveal_strlit("const n = await figma.getNodeByIdAsync(");
    reveal_strlit("const n = await ");
    reveal_strlit("figma.getNodeByIdAsync(");
    reveal_strlit("); if (!n) return { error: 'Node not found' }; n.x = ");
    reveal_strlit("); if (!n) return { error: 'Node not found' }; ");
    reveal_strlit("n.x = ");
    reveal_strlit("; n.y = ");
    reveal_strlit("n.y = ");
    reveal_strlit("; return { id: n.id, x: n.x, y: n.y };");
    reveal_strlit(" return { id: n.id, x: n.x, y: n.y };");
    reveal_strlit(";");
    reveal_strlit(")");
    reveal_strlit("; if (!n) return { error: 'Node not found' }; ");
    reveal_strlit(" ");
    assert("const n = await figma.getNodeByIdAsync("@ =~= "const n = await "@ + "figma.getNodeByIdAsync("@);
    assert("); if (!n) return { error: 'Node not found' }; n.x = "@ =~= ")"@ + "; if (!n) return { error: 'Node not found' }; "@ + "n.x = "@);
    assert("; n.y = "@ =~= ";"@ + " "@ + "n.y = "@);
    assert("; return { id: n.id, x: n.x, y: n.y };"@ =~= ";"@ + " return { id: n.id, x: n.x, y: n.y };"@);
    let open = "(async () => {\n"@ + "const n = await "@;
    let look = "figma.getNodeByIdAsync("@ + json_quote(node_id) + ")"@;
    let mid = "; if (!n) return { error: 'Node not found' }; "@;
    let px = "n.x = "@ + x + ";"@;
    let py = "n.y = "@ + y + ";"@;
    let close = " return { id: n.id, x: n.x, y: n.y };"@ + "\n})()"@;
    let s = figjam_move_js(node_id, x, y);
    assert(s =~= open + look + (mid + px + " "@ + py + close));
    lemma_contains_mid(open, look, mid + px + " "@ + py + close);
    assert(s =~= (open + look + mid) + px + (" "@ + py + close));
    lemma_contains_mid(open + look + mid, px, " "@ + py + close);
    assert(s =~= (open + look + mid + px + " "@) + py + close);
    lemma_contains_mid(open + look + mid + px + " "@, py, close);
}

/// Script for `figjam update`.
pub open spec fn figjam_update_js(node_id: Seq<char>, text: Seq<char>) -> Seq<char> {
    wrap_async_js(
        "const n = await figma.getNodeByIdAsync("@
        + json_quote(node_id)
        + "); if (!n) return { error: 'Node not found' }; await figma.loadFontAsync({ family: 'Inter', style: 'Medium' }); if (n.text) n.text.characters = "@
        + json_quote(text)
        + "; else if (n.type === 'TEXT') n.characters = "@
        + json_quote(text)
        + "; return { id: n.id };"@
    )
}

/// Script that updates the text of a FigJam node.
pub fn figjam_update(node_id: &str, text: &str) -> (script: String)
    ensures
        script@ == figjam_update_js(node_id@, text@),
{
    let id = js_string(node_id);
    let t = js_string(text);
    let mut body = String::from_str("const n = await figma.getNodeByIdAsync(");
    body.append(id.as_str());
    body.append("); if (!n) return { error: 'Node not found' }; await figma.loadFontAsync({ family: 'Inter', style: 'Medium' }); if (n.text) n.text.characters = ");
    body.append(t.as_str());
    body.append("; else if (n.type === 'TEXT') n.characters = ");
    body.append(t.as_str());
    body.append("; return { id: n.id };");
    wrap_async(body.as_str())
}

/// Script that reports the current page's name, id and child count.
pub open spec fn figjam_info_js() -> Seq<char> {
    "(async () => { const p = figma.currentPage; return { name: p.name, id: p.id, childCount: p.children.length }; })()"@
}

/// Script for `figjam info`.
pub fn figjam_info() -> (script: &'static str)
    ensures
        script@ == figjam_info_js(),
{
    "(async () => { const p = figma.currentPage; return { name: p.name, id: p.id, childCount: p.children.length }; })()"
}

/// Script for `figjam nodes`.
pub open spec fn figjam_nodes_js(limit: u32) -> Seq<char> {
    wrap_async_js(
        "return figma.currentPage.children.slice(0, "@
        + decimal(limit as nat)
        + ").map(n => ({ id: n.id, type: n.type, name: n.name, x: Math.round(n.x), y: Math.round(n.y) }));"@
    )
}

/// Script that lists the first `limit` nodes of the page.
pub fn figjam_nodes(limit: u32) -> (script: String)
    ensures
        script@ == figjam_nodes_js(limit),
{
    let limit_text = u64_text(limit as u64);
    let mut body = String::from_str("return figma.currentPage.children.slice(0, ");
    body.append(limit_text.as_str());
    body.append(").map(n => ({ id: n.id, type: n.type, name: n.name, x: Math.round(n.x), y: Math.round(n.y) }));");
    wrap_async(body.as_str())
}

/// Script that creates variable `name` of type `t` (upper-cased) in the
/// collection, with an optional initial value.
pub open spec fn var_create_typed_js(name: Seq<char>, collection: Seq<char>, t: Seq<char>, value: Option<Seq<char>>) -> Seq<char> {
    let set_val = match value {
        Some(value) => "let figmaValue = "@
        + json_quote(value)
        + "; if ("@
        + json_quote(t)
        + " === 'COLOR') figmaValue = hexToRgb("@
        + json_quote(value)
        + "); else if ("@
        + json_quote(t)
        + " === 'FLOAT') figmaValue = parseFloat("@
        + json_quote(value)
        + "); else if ("@
        + json_quote(t)
        + " === 'BOOLEAN') figmaValue = "@
        + json_quote(value)
        + " === 'true'; v.setValueForMode(modeId, figmaValue);"@,
        None => Seq::empty(),
    };
    wrap_async_js(
        "const cols = await figma.variables.getLocalVariableCollectionsAsync();\nlet col = cols.find(c => c.id === "@
        + json_quote(collection)
        + " || c.name === "@
        + json_quote(collection)
        + ");\nif (!col) return 'Collection not found: ' + "@
        + json_quote(collection)
        + ";\nconst modeId = col.modes[0].modeId;\nfunction hexToRgb(hex) { const r = /^#?([a-f\\d]{2})([a-f\\d]{2})([a-f\\d]{2})$/i.exec(hex); return r ? { r: parseInt(r[1],16)/255, g: parseInt(r[2],16)/255, b: parseInt(r[3],16)/255 } : null; }\nconst v = figma.variables.createVariable("@
        + json_quote(name)
        + ", col, "@
        + json_quote(t)
        + ");\n"@
        + set_val
        + "\nreturn { id: v.id, name: v.name };"@
    )
}

/// Script for `var create` once the type is upper-cased: creates the variable
/// in the collection (by id or name) and sets its value, converted by type.
pub fn var_create_typed(name: &str, collection: &str, t: &str, value: Option<&str>) -> (script: String)
    ensures
        script@ == var_create_typed_js(name@, collection@, t@, opt_text(value)),
{
    let tj = js_string(t);
    let set_val = match value {
        Some(val) => {
            let v = js_string(val);
            let mut sv = String::from_str("let figmaValue = ");
            sv.append(v.as_str());
            sv.append("; if (");
            sv.append(tj.as_str());
            sv.append(" === 'COLOR') figmaValue = hexToRgb(");
            sv.append(v.as_str());
            sv.append("); else if (");
            sv.append(tj.as_str());
            sv.append(" === 'FLOAT') figmaValue = parseFloat(");
            sv.append(v.as_str());
            sv.append("); else if (");
            sv.append(tj.as_str());
            sv.append(" === 'BOOLEAN') figmaValue = ");
            sv.append(v.as_str());
            sv.append(" === 'true'; v.setValueForMode(modeId, figmaValue);");
            sv
        },
        None => String::new(),
    };
    let c = js_string(collection);
    let n = js_string(name);
    let mut body = String::from_str("const cols = await figma.variables.getLocalVariableCollectionsAsync();\nlet col = cols.find(c => c.id === ");
    body.append(c.as_str());
    body.append(" || c.name === ");
    body.append(c.as_str());
    body.append(");\nif (!col) return 'Collection not found: ' + ");
    body.append(c.as_str());
    body.append(";\nconst modeId = col.modes[0].modeId;\nfunction hexToRgb(hex) { const r = /^#?([a-f\\d]{2})([a-f\\d]{2})([a-f\\d]{2})$/i.exec(hex); return r ? { r: parseInt(r[1],16)/255, g: parseInt(r[2],16)/255, b: parseInt(r[3],16)/255 } : null; }\nconst v = figma.variables.createVariable(");
    body.append(n.as_str());
    body.append(", col, ");
    body.append(tj.as_str());
    body.append(");\n");
    body.append(set_val.as_str());
    body.append("\nreturn { id: v.id, name: v.name };");
    wrap_async(body.as_str())
}

/// Script for `var create`: the type is upper-cased first.
pub open spec fn var_create_js(name: Seq<char>, collection: Seq<char>, vtype: Seq<char>, value: Option<Seq<char>>) -> Seq<char> {
    var_create_typed_js(name, collection, uppercased(vtype), value)
}

/// Script that creates a variable.
pub fn var_create(name: &str, collection: &str, vtype: &str, value: Option<&str>) -> (script: String)
    ensures
        script@ == var_create_js(name@, collection@, vtype@, opt_text(value)),
{
    let t = uppercase(vtype);
    var_create_typed(name, collection, t.as_str(), value)
}

/// Script for `var create-batch`; `vars_json` is the JSON list as written.
pub open spec fn var_create_batch_js(collection: Seq<char>, vars_json: Seq<char>) -> Seq<char> {
    wrap_async_js(
        "const vars = "@
        + vars_json
        + ";\nconst cols = await figma.variables.getLocalVariableCollectionsAsync();\nlet col = cols.find(c => c.id === "@
        + json_quote(collection)
        + " || c.name === "@
        + json_quote(collection)
        + ");\nif (!col) return 'Collection not found: ' + "@
        + json_quote(collection)
        + ";\nconst modeId = col.modes[0].modeId;\nfunction hexToRgb(hex) { const r = /^#?([a-f\\d]{2})([a-f\\d]{2})([a-f\\d]{2})$/i.exec(hex); return r ? { r: parseInt(r[1],16)/255, g: parseInt(r[2],16)/255, b: parseInt(r[3],16)/255 } : null; }\nlet created = 0;\nfor (const v of vars) { const type = (v.type || 'COLOR').toUpperCase(); const variable = figma.variables.createVariable(v.name, col, type); if (v.value !== undefined) { let fv = v.value; if (type === 'COLOR') fv = hexToRgb(v.value); else if (type === 'FLOAT') fv = parseFloat(v.value); else if (type === 'BOOLEAN') fv = v.value === true || v.value === 'true'; variable.setValueForMode(modeId, fv); } created++; }\nreturn 'Created ' + created + ' variables';"@
    )
}

/// Script that creates the variables of a JSON list in a collection.
pub fn var_create_batch(collection: &str, vars_json: &str) -> (script: String)
    ensures
        script@ == var_create_batch_js(collection@, vars_json@),
{
    let c = js_string(collection);
    let mut body = String::from_str("const vars = ");
    body.append(vars_json);
    body.append(";\nconst cols = await figma.variables.getLocalVariableCollectionsAsync();\nlet col = cols.find(c => c.id === ");
    body.append(c.as_str());
    body.append(" || c.name === ");
    body.append(c.as_str());
    body.append(");\nif (!col) return 'Collection not found: ' + ");
    body.append(c.as_str());
    body.append(";\nconst modeId = col.modes[0].modeId;\nfunction hexToRgb(hex) { const r = /^#?([a-f\\d]{2})([a-f\\d]{2})([a-f\\d]{2})$/i.exec(hex); return r ? { r: parseInt(r[1],16)/255, g: parseInt(r[2],16)/255, b: parseInt(r[3],16)/255 } : null; }\nlet created = 0;\nfor (const v of vars) { const type = (v.type || 'COLOR').toUpperCase(); const variable = figma.variables.createVariable(v.name, col, type); if (v.value !== undefined) { let fv = v.value; if (type === 'COLOR') fv = hexToRgb(v.value); else if (type === 'FLOAT') fv = parseFloat(v.value); else if (type === 'BOOLEAN') fv = v.value === true || v.value === 'true'; variable.setValueForMode(modeId, fv); } created++; }\nreturn 'Created ' + created + ' variables';");
    wrap_async(body.as_str())
}

/// Script that deletes the nodes of a JSON id list.
pub open spec fn delete_batch_js(ids_json: Seq<char>) -> Seq<char> {
    wrap_async_js(
        "const ids = "@
        + ids_json
        + ";\nlet deleted = 0;\nfor (const id of ids) { const n = await figma.getNodeByIdAsync(id); if (n) { n.remove(); deleted++; } }\nreturn 'Deleted ' + deleted + ' nodes';"@
    )
}

/// Script that deletes the nodes of a JSON id list.
pub fn delete_batch(ids_json: &str) -> (script: String)
    ensures
        script@ == delete_batch_js(ids_json@),
{
    let mut body = String::from_str("const ids = ");
    body.append(ids_json);
    body.append(";\nlet deleted = 0;\nfor (const id of ids) { const n = await figma.getNodeByIdAsync(id); if (n) { n.remove(); deleted++; } }\nreturn 'Deleted ' + deleted + ' nodes';");
    wrap_async(body.as_str())
}

/// Script that applies a JSON list of variable bindings.
pub open spec fn bind_batch_js(bindings_json: Seq<char>) -> Seq<char> {
    wrap_async_js(
        "const bindings = "@
        + bindings_json
        + ";\nconst vars = await figma.variables.getLocalVariablesAsync();\nlet bound = 0;\nfor (const b of bindings) {\n  const node = await figma.getNodeByIdAsync(b.nodeId);\n  if (!node) continue;\n  const variable = vars.find(v => v.name === b.variable || v.name.endsWith('/' + b.variable));\n  if (!variable) continue;\n  const prop = b.property.toLowerCase();\n  if (prop === 'fill' && 'fills' in node && node.fills.length > 0) { node.fills = [figma.variables.setBoundVariableForPaint(node.fills[0], 'color', variable)]; bound++; }\n  else if (prop === 'stroke' && 'strokes' in node && node.strokes.length > 0) { node.strokes = [figma.variables.setBoundVariableForPaint(node.strokes[0], 'color', variable)]; bound++; }\n  else if (prop === 'radius' && 'cornerRadius' in node) { node.setBoundVariable('cornerRadius', variable); bound++; }\n  else if (prop === 'gap' && 'itemSpacing' in node) { node.setBoundVariable('itemSpacing', variable); bound++; }\n  else if (prop === 'padding' && 'paddingTop' in node) { node.setBoundVariable('paddingTop', variable); node.setBoundVariable('paddingBottom', variable); node.setBoundVariable('paddingLeft', variable); node.setBoundVariable('paddingRight', variable); bound++; }\n}\nreturn 'Bound ' + bound + ' properties';"@
    )
}

/// Script that applies a JSON list of variable bindings.
pub fn bind_batch(bindings_json: &str) -> (script: String)
    ensures
        script@ == bind_batch_js(bindings_json@),
{
    let mut body = String::from_str("const bindings = ");
    body.append(bindings_json);
    body.append(";\nconst vars = await figma.variables.getLocalVariablesAsync();\nlet bound = 0;\nfor (const b of bindings) {\n  const node = await figma.getNodeByIdAsync(b.nodeId);\n  if (!node) continue;\n  const variable = vars.find(v => v.name === b.variable || v.name.endsWith('/' + b.variable));\n  if (!variable) continue;\n  const prop = b.property.toLowerCase();\n  if (prop === 'fill' && 'fills' in node && node.fills.length > 0) { node.fills = [figma.variables.setBoundVariableForPaint(node.fills[0], 'color', variable)]; bound++; }\n  else if (prop === 'stroke' && 'strokes' in node && node.strokes.length > 0) { node.strokes = [figma.variables.setBoundVariableForPaint(node.strokes[0], 'color', variable)]; bound++; }\n  else if (prop === 'radius' && 'cornerRadius' in node) { node.setBoundVariable('cornerRadius', variable); bound++; }\n  else if (prop === 'gap' && 'itemSpacing' in node) { node.setBoundVariable('itemSpacing', variable); bound++; }\n  else if (prop === 'padding' && 'paddingTop' in node) { node.setBoundVariable('paddingTop', variable); node.setBoundVariable('paddingBottom', variable); node.setBoundVariable('paddingLeft', variable); node.setBoundVariable('paddingRight', variable); bound++; }\n}\nreturn 'Bound ' + bound + ' properties';");
    wrap_async(body.as_str())
}

/// Script that renames nodes from a JSON list of {id, name}.
pub open spec fn rename_batch_js(pairs_json: Seq<char>) -> Seq<char> {
    wrap_async_js(
        "const pairs = "@
        + pairs_json
        + ";\nlet renamed = 0;\nconst notFound = [];\nfor (const p of pairs) { const node = await figma.getNodeByIdAsync(p.id); if (node) { node.name = p.name; renamed++; } else notFound.push(p.id); }\nreturn { renamed, notFound };"@
    )
}

/// Script that renames nodes from a JSON list of {id, name}.
pub fn rename_batch(pairs_json: &str) -> (script: String)
    ensures
        script@ == rename_batch_js(pairs_json@),
{
    let mut body = String::from_str("const pairs = ");
    body.append(pairs_json);
    body.append(";\nlet renamed = 0;\nconst notFound = [];\nfor (const p of pairs) { const node = await figma.getNodeByIdAsync(p.id); if (node) { node.name = p.name; renamed++; } else notFound.push(p.id); }\nreturn { renamed, notFound };");
    wrap_async(body.as_str())
}

/// Script for `var find` (case-insensitive).
pub open spec fn var_find_js(pattern: Seq<char>) -> Seq<char> {
    wrap_async_js(
        "const vars = await figma.variables.getLocalVariablesAsync();\nconst p = "@
        + json_quote(pattern)
        + ".toLowerCase();\nreturn vars.filter(v => v.name.toLowerCase().includes(p)).map(v => ({ name: v.name, type: v.resolvedType }));"@
    )
}

/// Script that lists the variables whose name contains the pattern.
pub fn var_find(pattern: &str) -> (script: String)
    ensures
        script@ == var_find_js(pattern@),
{
    let p = js_string(pattern);
    let mut body = String::from_str("const vars = await figma.variables.getLocalVariablesAsync();\nconst p = ");
    body.append(p.as_str());
    body.append(".toLowerCase();\nreturn vars.filter(v => v.name.toLowerCase().includes(p)).map(v => ({ name: v.name, type: v.resolvedType }));");
    wrap_async(body.as_str())
}

/// Script for `slot create`: horizontal for flex `row`, vertical otherwise.
pub open spec fn slot_create_js(name: Seq<char>, flex: Seq<char>, gap: Seq<char>, padding: Seq<char>) -> Seq<char> {
    let mode = if flex == "row"@ { "HORIZONTAL"@ } else { "VERTICAL"@ };
    wrap_async_js(
        "const sel = figma.currentPage.selection;\nif (sel.length === 0) return { error: 'No component selected' };\nconst comp = sel[0];\nif (comp.type !== 'COMPONENT' && comp.type !== 'COMPONENT_SET') return { error: 'Selected node is not a component' };\nconst slot = comp.createSlot("@
        + json_quote(name)
        + ");\nslot.layoutMode = "@
        + json_quote(mode)
        + ";\nslot.itemSpacing = "@
        + gap
        + ";\nslot.paddingTop = "@
        + padding
        + "; slot.paddingBottom = "@
        + padding
        + "; slot.paddingLeft = "@
        + padding
        + "; slot.paddingRight = "@
        + padding
        + ";\nreturn { success: true, slotId: slot.id, slotName: slot.name, componentName: comp.name };"@
    )
}

/// Script that creates a slot in the selected component.
pub fn slot_create(name: &str, flex: &str, gap: &str, padding: &str) -> (script: String)
    ensures
        script@ == slot_create_js(name@, flex@, gap@, padding@),
{
    let mode: &str = if same_text(flex, "row") { "HORIZONTAL" } else { "VERTICAL" };
    let name_j = js_string(name);
    let mode_j = js_string(mode);
    let mut body = String::from_str("const sel = figma.currentPage.selection;\nif (sel.length === 0) return { error: 'No component selected' };\nconst comp = sel[0];\nif (comp.type !== 'COMPONENT' && comp.type !== 'COMPONENT_SET') return { error: 'Selected node is not a component' };\nconst slot = comp.createSlot(");
    body.append(name_j.as_str());
    body.append(");\nslot.layoutMode = ");
    body.append(mode_j.as_str());
    body.append(";\nslot.itemSpacing = ");
    body.append(gap);
    body.append(";\nslot.paddingTop = ");
    body.append(padding);
    body.append("; slot.paddingBottom = ");
    body.append(padding);
    body.append("; slot.paddingLeft = ");
    body.append(padding);
    body.append("; slot.paddingRight = ");
    body.append(padding);
    body.append(";\nreturn { success: true, slotId: slot.id, slotName: slot.name, componentName: comp.name };");
    wrap_async(body.as_str())
}

/// Script for `slot list`: the component with the id, or the selected one.
pub open spec fn slot_list_js(node_id: Option<Seq<char>>) -> Seq<char> {
    let lookup = match node_id {
        Some(id) => "const comp = await figma.getNodeByIdAsync("@
        + json_quote(id)
        + ");"@,
        None => "const sel = figma.currentPage.selection; if (sel.length === 0) return { error: 'No component selected' }; const comp = sel[0];"@,
    };
    wrap_async_js(
        lookup
        + "\nif (!comp || (comp.type !== 'COMPONENT' && comp.type !== 'COMPONENT_SET')) return { error: 'Node is not a component' };\nfunction findSlots(n, out) { if (n.type === 'SLOT') out.push({ id: n.id, name: n.name }); if ('children' in n) n.children.forEach(c => findSlots(c, out)); }\nconst slots = []; findSlots(comp, slots);\nreturn { component: comp.name, slots };"@
    )
}

/// Script that lists the slots of a component.
pub fn slot_list(node_id: Option<&str>) -> (script: String)
    ensures
        script@ == slot_list_js(opt_text(node_id)),
{
    let lookup = match node_id {
        Some(node) => {
            let id = js_string(node);
            let mut l = String::from_str("const comp = await figma.getNodeByIdAsync(");
            l.append(id.as_str());
            l.append(");");
            l
        },
        None => String::from_str("const sel = figma.currentPage.selection; if (sel.length === 0) return { error: 'No component selected' }; const comp = sel[0];"),
    };
    let mut body = String::from_str(lookup.as_str());
    body.append("\nif (!comp || (comp.type !== 'COMPONENT' && comp.type !== 'COMPONENT_SET')) return { error: 'Node is not a component' };\nfunction findSlots(n, out) { if (n.type === 'SLOT') out.push({ id: n.id, name: n.name }); if ('children' in n) n.children.forEach(c => findSlots(c, out)); }\nconst slots = []; findSlots(comp, slots);\nreturn { component: comp.name, slots };");
    wrap_async(body.as_str())
}

/// Script for `slot reset`: the slot with the id or selected, or the single slot of an instance.
pub open spec fn slot_reset_js(node_id: Option<Seq<char>>) -> Seq<char> {
    let lookup = match node_id {
        Some(id) => "let node = await figma.getNodeByIdAsync("@
        + json_quote(id)
        + ");"@,
        None => "const sel = figma.currentPage.selection; if (sel.length === 0) return { error: 'No slot selected' }; let node = sel[0];"@,
    };
    wrap_async_js(
        lookup
        + "\nif (node.type !== 'SLOT') { if (node.type === 'INSTANCE') { const slots = node.children.filter(c => c.type === 'SLOT'); if (slots.length === 0) return { error: 'No slots found in instance' }; if (slots.length === 1) node = slots[0]; else return { error: 'Multiple slots found' }; } else return { error: 'Node is not a slot' }; }\nconst beforeCount = node.children.length; node.resetSlot(); return { success: true, slotName: node.name, beforeCount, afterCount: node.children.length };"@
    )
}

/// Script that resets a slot.
pub fn slot_reset(node_id: Option<&str>) -> (script: String)
    ensures
        script@ == slot_reset_js(opt_text(node_id)),
{
    let lookup = match node_id {
        Some(node) => {
            let id = js_string(node);
            let mut l = String::from_str("let node = await figma.getNodeByIdAsync(");
            l.append(id.as_str());
            l.append(");");
            l
        },
        None => String::from_str("const sel = figma.currentPage.selection; if (sel.length === 0) return { error: 'No slot selected' }; let node = sel[0];"),
    };
    let mut body = String::from_str(lookup.as_str());
    body.append("\nif (node.type !== 'SLOT') { if (node.type === 'INSTANCE') { const slots = node.children.filter(c => c.type === 'SLOT'); if (slots.length === 0) return { error: 'No slots found in instance' }; if (slots.length === 1) node = slots[0]; else return { error: 'Multiple slots found' }; } else return { error: 'Node is not a slot' }; }\nconst beforeCount = node.children.length; node.resetSlot(); return { success: true, slotName: node.name, beforeCount, afterCount: node.children.length };");
    wrap_async(body.as_str())
}

/// Script for `slot convert`.
pub open spec fn slot_convert_js(node_id: Option<Seq<char>>, name: Seq<char>) -> Seq<char> {
    let lookup = match node_id {
        Some(id) => "let frame = await figma.getNodeByIdAsync("@
        + json_quote(id)
        + ");"@,
        None => "const sel = figma.currentPage.selection; if (sel.length === 0) return { error: 'No frame selected' }; let frame = sel[0];"@,
    };
    wrap_async_js(
        lookup
        + "\nif (frame.type !== 'FRAME') return { error: 'Node is not a frame' };\nlet parent = frame.parent, component = null;\nwhile (parent) { if (parent.type === 'COMPONENT' || parent.type === 'COMPONENT_SET') { component = parent; break; } parent = parent.parent; }\nif (!component) return { error: 'Frame is not inside a component' };\nconst fp = { x: frame.x, y: frame.y, width: frame.width, height: frame.height, layoutMode: frame.layoutMode, itemSpacing: frame.itemSpacing, paddingTop: frame.paddingTop, paddingBottom: frame.paddingBottom, paddingLeft: frame.paddingLeft, paddingRight: frame.paddingRight, fills: frame.fills, children: [...frame.children] };\nconst slot = component.createSlot("@
        + json_quote(name)
        + ");\nslot.layoutMode = fp.layoutMode; slot.itemSpacing = fp.itemSpacing; slot.paddingTop = fp.paddingTop; slot.paddingBottom = fp.paddingBottom; slot.paddingLeft = fp.paddingLeft; slot.paddingRight = fp.paddingRight; slot.fills = fp.fills; slot.resize(fp.width, fp.height); slot.x = fp.x; slot.y = fp.y;\nfp.children.forEach(c => slot.appendChild(c));\nframe.remove();\nreturn { success: true, slotId: slot.id, slotName: slot.name, componentName: component.name };"@
    )
}

/// Script that converts a frame inside a component into a slot.
pub fn slot_convert(node_id: Option<&str>, name: &str) -> (script: String)
    ensures
        script@ == slot_convert_js(opt_text(node_id), name@),
{
    let lookup = match node_id {
        Some(node) => {
            let id = js_string(node);
            let mut l = String::from_str("let frame = await figma.getNodeByIdAsync(");
            l.append(id.as_str());
            l.append(");");
            l
        },
        None => String::from_str("const sel = figma.currentPage.selection; if (sel.length === 0) return { error: 'No frame selected' }; let frame = sel[0];"),
    };
    let name_j = js_string(name);
    let mut body = String::from_str(lookup.as_str());
    body.append("\nif (frame.type !== 'FRAME') return { error: 'Node is not a frame' };\nlet parent = frame.parent, component = null;\nwhile (parent) { if (parent.type === 'COMPONENT' || parent.type === 'COMPONENT_SET') { component = parent; break; } parent = parent.parent; }\nif (!component) return { error: 'Frame is not inside a component' };\nconst fp = { x: frame.x, y: frame.y, width: frame.width, height: frame.height, layoutMode: frame.layoutMode, itemSpacing: frame.itemSpacing, paddingTop: frame.paddingTop, paddingBottom: frame.paddingBottom, paddingLeft: frame.paddingLeft, paddingRight: frame.paddingRight, fills: frame.fills, children: [...frame.children] };\nconst slot = component.createSlot(");
    body.append(name_j.as_str());
    body.append(");\nslot.layoutMode = fp.layoutMode; slot.itemSpacing = fp.itemSpacing; slot.paddingTop = fp.paddingTop; slot.paddingBottom = fp.paddingBottom; slot.paddingLeft = fp.paddingLeft; slot.paddingRight = fp.paddingRight; slot.fills = fp.fills; slot.resize(fp.width, fp.height); slot.x = fp.x; slot.y = fp.y;\nfp.children.forEach(c => slot.appendChild(c));\nframe.remove();\nreturn { success: true, slotId: slot.id, slotName: slot.name, componentName: component.name };");
    wrap_async(body.as_str())
}

/// Script for `variants from`: each node (promoted to a component when a frame or group) becomes variant `property=values[i]` of one set.
pub open spec fn variants_from_js(ids: &[String], property: Seq<char>, values: &[String], set_name: Seq<char>) -> Seq<char> {
    wrap_async_js(
        "const ids = "@
        + json_string_array(texts_of(ids@))
        + ";\nconst values = "@
        + json_string_array(texts_of(values@))
        + ";\nconst property = "@
        + json_quote(property)
        + ";\nconst setNameArg = "@
        + json_quote(set_name)
        + ";\nconst components = []; const promoted = []; let baseName = setNameArg;\nfor (let i = 0; i < ids.length; i++) {\n  const node = await figma.getNodeByIdAsync(ids[i]);\n  if (!node) return { error: 'Node not found: ' + ids[i] };\n  let comp;\n  if (node.type === 'COMPONENT') { if (node.parent && node.parent.type === 'COMPONENT_SET') return { error: 'Node ' + ids[i] + ' is already a variant' }; comp = node; }\n  else if (node.type === 'FRAME' || node.type === 'GROUP') { comp = figma.createComponentFromNode(node); promoted.push(ids[i]); }\n  else return { error: 'Unsupported type for ' + ids[i] + ': ' + node.type };\n  if (!baseName) { let n = (comp.name || 'Component'); n = n.replace(/\\s*,\\s*[^,=]+=[^,]+(?:,\\s*[^,=]+=[^,]+)*\\s*$/, ''); n = n.replace(/\\s*\\/.*$/, ''); baseName = n.trim() || 'Component'; }\n  components.push({ comp, value: values[i] });\n}\nfor (const { comp, value } of components) comp.name = property + '=' + value;\nconst page = figma.currentPage;\nfor (const { comp } of components) if (comp.parent !== page) page.appendChild(comp);\nlet set;\ntry { set = figma.combineAsVariants(components.map(c => c.comp), page); } catch (err) { return { error: 'combineAsVariants failed: ' + (err && err.message ? err.message : String(err)) }; }\nset.name = baseName;\nfigma.currentPage.selection = [set]; figma.viewport.scrollAndZoomIntoView([set]);\nreturn { id: set.id, name: set.name, property, values, promotedCount: promoted.length, count: components.length, variantIds: components.map(c => c.comp.id) };"@
    )
}

/// Script that combines nodes into a variant set.
pub fn variants_from(ids: &[String], property: &str, values: &[String], set_name: &str) -> (script: String)
    ensures
        script@ == variants_from_js(ids, property@, values, set_name@),
{
    let ids_j = js_string_array(ids);
    let vals_j = js_string_array(values);
    let prop_j = js_string(property);
    let set_j = js_string(set_name);
    let mut body = String::from_str("const ids = ");
    body.append(ids_j.as_str());
    body.append(";\nconst values = ");
    body.append(vals_j.as_str());
    body.append(";\nconst property = ");
    body.append(prop_j.as_str());
    body.append(";\nconst setNameArg = ");
    body.append(set_j.as_str());
    body.append(";\nconst components = []; const promoted = []; let baseName = setNameArg;\nfor (let i = 0; i < ids.length; i++) {\n  const node = await figma.getNodeByIdAsync(ids[i]);\n  if (!node) return { error: 'Node not found: ' + ids[i] };\n  let comp;\n  if (node.type === 'COMPONENT') { if (node.parent && node.parent.type === 'COMPONENT_SET') return { error: 'Node ' + ids[i] + ' is already a variant' }; comp = node; }\n  else if (node.type === 'FRAME' || node.type === 'GROUP') { comp = figma.createComponentFromNode(node); promoted.push(ids[i]); }\n  else return { error: 'Unsupported type for ' + ids[i] + ': ' + node.type };\n  if (!baseName) { let n = (comp.name || 'Component'); n = n.replace(/\\s*,\\s*[^,=]+=[^,]+(?:,\\s*[^,=]+=[^,]+)*\\s*$/, ''); n = n.replace(/\\s*\\/.*$/, ''); baseName = n.trim() || 'Component'; }\n  components.push({ comp, value: values[i] });\n}\nfor (const { comp, value } of components) comp.name = property + '=' + value;\nconst page = figma.currentPage;\nfor (const { comp } of components) if (comp.parent !== page) page.appendChild(comp);\nlet set;\ntry { set = figma.combineAsVariants(components.map(c => c.comp), page); } catch (err) { return { error: 'combineAsVariants failed: ' + (err && err.message ? err.message : String(err)) }; }\nset.name = baseName;\nfigma.currentPage.selection = [set]; figma.viewport.scrollAndZoomIntoView([set]);\nreturn { id: set.id, name: set.name, property, values, promotedCount: promoted.length, count: components.length, variantIds: components.map(c => c.comp.id) };");
    wrap_async(body.as_str())
}

/// Script for `prop combine`.
pub open spec fn prop_combine_js(ids: &[String], name: Seq<char>) -> Seq<char> {
    wrap_async_js(
        "const components = [];\nfor (const id of "@
        + json_string_array(texts_of(ids@))
        + ") { const n = await figma.getNodeByIdAsync(id); if (!n) throw new Error('Node not found: ' + id); if (n.type !== 'COMPONENT') throw new Error('Not a component: ' + id + ' (type=' + n.type + ')'); components.push(n); }\nconst set = figma.combineAsVariants(components, figma.currentPage);\nset.name = "@
        + json_quote(name)
        + ";\nreturn { id: set.id, name: set.name, count: components.length };"@
    )
}

/// Script that combines components into a variant set.
pub fn prop_combine(ids: &[String], name: &str) -> (script: String)
    ensures
        script@ == prop_combine_js(ids, name@),
{
    let ids_j = js_string_array(ids);
    let name_j = js_string(name);
    let mut body = String::from_str("const components = [];\nfor (const id of ");
    body.append(ids_j.as_str());
    body.append(") { const n = await figma.getNodeByIdAsync(id); if (!n) throw new Error('Node not found: ' + id); if (n.type !== 'COMPONENT') throw new Error('Not a component: ' + id + ' (type=' + n.type + ')'); components.push(n); }\nconst set = figma.combineAsVariants(components, figma.currentPage);\nset.name = ");
    body.append(name_j.as_str());
    body.append(";\nreturn { id: set.id, name: set.name, count: components.length };");
    wrap_async(body.as_str())
}

/// Script that lints the page: generic names, hardcoded fills, unstyled and tiny text.
pub open spec fn lint_js() -> Seq<char> {
    r#"(async () => {
  const issues = [];
  function checkNode(node) {
    if (node.name.startsWith('Frame') || node.name.startsWith('Rectangle') || node.name.startsWith('Group')) issues.push({ type: 'naming', severity: 'warning', node: node.id, name: node.name, message: 'Generic name, consider renaming' });
    if (node.fills && Array.isArray(node.fills)) { const hasFillBinding = node.boundVariables && node.boundVariables.fills; if (!hasFillBinding && node.fills.some(f => f.type === 'SOLID')) issues.push({ type: 'color', severity: 'info', node: node.id, name: node.name, message: 'Hardcoded fill color' }); }
    if (node.type === 'TEXT' && !node.textStyleId) issues.push({ type: 'typography', severity: 'info', node: node.id, name: node.name, message: 'Text without style' });
    if (node.type === 'TEXT' && node.fontSize < 12) issues.push({ type: 'accessibility', severity: 'warning', node: node.id, name: node.name, message: 'Text size < 12px may be hard to read' });
    if ('children' in node) node.children.forEach(c => checkNode(c));
  }
  figma.currentPage.children.forEach(c => checkNode(c));
  return { total: issues.length, issues: issues.slice(0, 50) };
})()"#@
}

/// Script that lints the page: generic names, hardcoded fills, unstyled and tiny text.
pub fn lint() -> (script: &'static str)
    ensures
        script@ == lint_js(),
{
    r#"(async () => {
  const issues = [];
  function checkNode(node) {
    if (node.name.startsWith('Frame') || node.name.startsWith('Rectangle') || node.name.startsWith('Group')) issues.push({ type: 'naming', severity: 'warning', node: node.id, name: node.name, message: 'Generic name, consider renaming' });
    if (node.fills && Array.isArray(node.fills)) { const hasFillBinding = node.boundVariables && node.boundVariables.fills; if (!hasFillBinding && node.fills.some(f => f.type === 'SOLID')) issues.push({ type: 'color', severity: 'info', node: node.id, name: node.name, message: 'Hardcoded fill color' }); }
    if (node.type === 'TEXT' && !node.textStyleId) issues.push({ type: 'typography', severity: 'info', node: node.id, name: node.name, message: 'Text without style' });
    if (node.type === 'TEXT' && node.fontSize < 12) issues.push({ type: 'accessibility', severity: 'warning', node: node.id, name: node.name, message: 'Text size < 12px may be hard to read' });
    if ('children' in node) node.children.forEach(c => checkNode(c));
  }
  figma.currentPage.children.forEach(c => checkNode(c));
  return { total: issues.length, issues: issues.slice(0, 50) };
})()"#
}

/// Script that counts the solid fill colours of the page.
pub open spec fn analyze_colors_js() -> Seq<char> {
    r#"(async () => {
  const colors = new Map();
  function rgbToHex(r, g, b) { return '#' + [r, g, b].map(x => Math.round(x * 255).toString(16).padStart(2, '0')).join(''); }
  function checkNode(node) {
    if (node.fills && Array.isArray(node.fills)) node.fills.forEach(f => { if (f.type === 'SOLID' && f.color) { const hex = rgbToHex(f.color.r, f.color.g, f.color.b); colors.set(hex, (colors.get(hex) || 0) + 1); } });
    if ('children' in node) node.children.forEach(c => checkNode(c));
  }
  figma.currentPage.children.forEach(c => checkNode(c));
  return Array.from(colors.entries()).sort((a, b) => b[1] - a[1]).slice(0, 20).map(([hex, count]) => ({ hex, count }));
})()"#@
}

/// Script that counts the solid fill colours of the page.
pub fn analyze_colors() -> (script: &'static str)
    ensures
        script@ == analyze_colors_js(),
{
    r#"(async () => {
  const colors = new Map();
  function rgbToHex(r, g, b) { return '#' + [r, g, b].map(x => Math.round(x * 255).toString(16).padStart(2, '0')).join(''); }
  function checkNode(node) {
    if (node.fills && Array.isArray(node.fills)) node.fills.forEach(f => { if (f.type === 'SOLID' && f.color) { const hex = rgbToHex(f.color.r, f.color.g, f.color.b); colors.set(hex, (colors.get(hex) || 0) + 1); } });
    if ('children' in node) node.children.forEach(c => checkNode(c));
  }
  figma.currentPage.children.forEach(c => checkNode(c));
  return Array.from(colors.entries()).sort((a, b) => b[1] - a[1]).slice(0, 20).map(([hex, count]) => ({ hex, count }));
})()"#
}

/// Script that counts the text styles of the page.
pub open spec fn analyze_typography_js() -> Seq<char> {
    r#"(async () => {
  const styles = new Map();
  function checkNode(node) {
    if (node.type === 'TEXT') { const key = node.fontName.family + '/' + node.fontSize + '/' + node.fontName.style; styles.set(key, (styles.get(key) || 0) + 1); }
    if ('children' in node) node.children.forEach(c => checkNode(c));
  }
  figma.currentPage.children.forEach(c => checkNode(c));
  return Array.from(styles.entries()).sort((a, b) => b[1] - a[1]).slice(0, 15).map(([key, count]) => { const [family, size, style] = key.split('/'); return { family, size: parseInt(size), style, count }; });
})()"#@
}

/// Script that counts the text styles of the page.
pub fn analyze_typography() -> (script: &'static str)
    ensures
        script@ == analyze_typography_js(),
{
    r#"(async () => {
  const styles = new Map();
  function checkNode(node) {
    if (node.type === 'TEXT') { const key = node.fontName.family + '/' + node.fontSize + '/' + node.fontName.style; styles.set(key, (styles.get(key) || 0) + 1); }
    if ('children' in node) node.children.forEach(c => checkNode(c));
  }
  figma.currentPage.children.forEach(c => checkNode(c));
  return Array.from(styles.entries()).sort((a, b) => b[1] - a[1]).slice(0, 15).map(([key, count]) => { const [family, size, style] = key.split('/'); return { family, size: parseInt(size), style, count }; });
})()"#
}

/// Script that counts the auto-layout gaps and paddings of the page.
pub open spec fn analyze_spacing_js() -> Seq<char> {
    r#"(async () => {
  const gaps = new Map(), paddings = new Map();
  function checkNode(node) {
    if (node.layoutMode && node.layoutMode !== 'NONE') {
      if (node.itemSpacing !== undefined) gaps.set(node.itemSpacing, (gaps.get(node.itemSpacing) || 0) + 1);
      [node.paddingTop, node.paddingRight, node.paddingBottom, node.paddingLeft].filter(x => x > 0).forEach(v => paddings.set(v, (paddings.get(v) || 0) + 1));
    }
    if ('children' in node) node.children.forEach(c => checkNode(c));
  }
  figma.currentPage.children.forEach(c => checkNode(c));
  return { gaps: Array.from(gaps.entries()).sort((a, b) => b[1] - a[1]).slice(0, 10).map(([v, c]) => ({ value: v, count: c })), paddings: Array.from(paddings.entries()).sort((a, b) => b[1] - a[1]).slice(0, 10).map(([v, c]) => ({ value: v, count: c })) };
})()"#@
}

/// Script that counts the auto-layout gaps and paddings of the page.
pub fn analyze_spacing() -> (script: &'static str)
    ensures
        script@ == analyze_spacing_js(),
{
    r#"(async () => {
  const gaps = new Map(), paddings = new Map();
  function checkNode(node) {
    if (node.layoutMode && node.layoutMode !== 'NONE') {
      if (node.itemSpacing !== undefined) gaps.set(node.itemSpacing, (gaps.get(node.itemSpacing) || 0) + 1);
      [node.paddingTop, node.paddingRight, node.paddingBottom, node.paddingLeft].filter(x => x > 0).forEach(v => paddings.set(v, (paddings.get(v) || 0) + 1));
    }
    if ('children' in node) node.children.forEach(c => checkNode(c));
  }
  figma.currentPage.children.forEach(c => checkNode(c));
  return { gaps: Array.from(gaps.entries()).sort((a, b) => b[1] - a[1]).slice(0, 10).map(([v, c]) => ({ value: v, count: c })), paddings: Array.from(paddings.entries()).sort((a, b) => b[1] - a[1]).slice(0, 10).map(([v, c]) => ({ value: v, count: c })) };
})()"#
}

/// Script that groups frames and groups by child-type signature.
pub open spec fn analyze_clusters_js() -> Seq<char> {
    r#"(async () => {
  const patterns = new Map();
  function getSignature(node) { if (node.type === 'FRAME' || node.type === 'GROUP') { const ct = ('children' in node) ? node.children.map(c => c.type).sort().join(',') : ''; return node.type + ':' + ct; } return node.type; }
  function checkNode(node) { if (node.type === 'FRAME' || node.type === 'GROUP') { const sig = getSignature(node); if (!patterns.has(sig)) patterns.set(sig, []); patterns.get(sig).push({ id: node.id, name: node.name }); } if ('children' in node) node.children.forEach(c => checkNode(c)); }
  figma.currentPage.children.forEach(c => checkNode(c));
  return Array.from(patterns.entries()).filter(([_, nodes]) => nodes.length >= 2).sort((a, b) => b[1].length - a[1].length).slice(0, 10).map(([sig, nodes]) => ({ pattern: sig, count: nodes.length, examples: nodes.slice(0, 3) }));
})()"#@
}

/// Script that groups frames and groups by child-type signature.
pub fn analyze_clusters() -> (script: &'static str)
    ensures
        script@ == analyze_clusters_js(),
{
    r#"(async () => {
  const patterns = new Map();
  function getSignature(node) { if (node.type === 'FRAME' || node.type === 'GROUP') { const ct = ('children' in node) ? node.children.map(c => c.type).sort().join(',') : ''; return node.type + ':' + ct; } return node.type; }
  function checkNode(node) { if (node.type === 'FRAME' || node.type === 'GROUP') { const sig = getSignature(node); if (!patterns.has(sig)) patterns.set(sig, []); patterns.get(sig).push({ id: node.id, name: node.name }); } if ('children' in node) node.children.forEach(c => checkNode(c)); }
  figma.currentPage.children.forEach(c => checkNode(c));
  return Array.from(patterns.entries()).filter(([_, nodes]) => nodes.length >= 2).sort((a, b) => b[1].length - a[1].length).slice(0, 10).map(([sig, nodes]) => ({ pattern: sig, count: nodes.length, examples: nodes.slice(0, 3) }));
})()"#
}

/// Script for `node-tree`: the node with the id, or the page, printed to `depth` levels.
pub open spec fn node_tree_js(node_id: Option<Seq<char>>, depth: u32) -> Seq<char> {
    let target = match node_id {
        Some(id) => "await figma.getNodeByIdAsync("@
        + json_quote(id)
        + ")"@,
        None => "figma.currentPage"@,
    };
    wrap_async_js(
        "const maxDepth = "@
        + decimal(depth as nat)
        + ";\nconst root = "@
        + target
        + ";\nif (!root) return 'Node not found';\nconst lines = [];\nfunction printNode(node, indent = 0, d = 0) { if (d > maxDepth) return; const prefix = '  '.repeat(indent); const size = node.width && node.height ? ' (' + Math.round(node.width) + 'x' + Math.round(node.height) + ')' : ''; lines.push(prefix + node.type + ': ' + node.name + size); if ('children' in node && d < maxDepth) node.children.forEach(c => printNode(c, indent + 1, d + 1)); }\nprintNode(root);\nreturn lines.join('\\n');"@
    )
}

/// Script that prints the node tree down to `depth`.
pub fn node_tree(node_id: Option<&str>, depth: u32) -> (script: String)
    ensures
        script@ == node_tree_js(opt_text(node_id), depth),
{
    let target = match node_id {
        Some(node) => {
            let id = js_string(node);
            let mut t = String::from_str("await figma.getNodeByIdAsync(");
            t.append(id.as_str());
            t.append(")");
            t
        },
        None => String::from_str("figma.currentPage"),
    };
    let depth_text = u64_text(depth as u64);
    let mut body = String::from_str("const maxDepth = ");
    body.append(depth_text.as_str());
    body.append(";\nconst root = ");
    body.append(target.as_str());
    body.append(";\nif (!root) return 'Node not found';\nconst lines = [];\nfunction printNode(node, indent = 0, d = 0) { if (d > maxDepth) return; const prefix = '  '.repeat(indent); const size = node.width && node.height ? ' (' + Math.round(node.width) + 'x' + Math.round(node.height) + ')' : ''; lines.push(prefix + node.type + ': ' + node.name + size); if ('children' in node && d < maxDepth) node.children.forEach(c => printNode(c, indent + 1, d + 1)); }\nprintNode(root);\nreturn lines.join('\\n');");
    wrap_async(body.as_str())
}

/// Script for `node-bindings`.
pub open spec fn node_bindings_js(node_id: Option<Seq<char>>) -> Seq<char> {
    let nodes = match node_id {
        Some(id) => "[await figma.getNodeByIdAsync("@
        + json_quote(id)
        + ")]"@,
        None => "figma.currentPage.selection"@,
    };
    wrap_async_js(
        "const nodes = "@
        + nodes
        + ";\nif (!nodes.length) return 'No node selected';\nconst results = [];\nfor (const node of nodes) { if (!node) continue; const bindings = {}; if (node.boundVariables) { for (const [prop, binding] of Object.entries(node.boundVariables)) { const b = Array.isArray(binding) ? binding[0] : binding; if (b && b.id) { const v = await figma.variables.getVariableByIdAsync(b.id); bindings[prop] = v ? v.name : b.id; } } } results.push({ id: node.id, name: node.name, bindings }); }\nreturn results;"@
    )
}

/// Script that lists the variable bindings of a node or the selection.
pub fn node_bindings(node_id: Option<&str>) -> (script: String)
    ensures
        script@ == node_bindings_js(opt_text(node_id)),
{
    let nodes = match node_id {
        Some(node) => {
            let id = js_string(node);
            let mut t = String::from_str("[await figma.getNodeByIdAsync(");
            t.append(id.as_str());
            t.append(")]");
            t
        },
        None => String::from_str("figma.currentPage.selection"),
    };
    let mut body = String::from_str("const nodes = ");
    body.append(nodes.as_str());
    body.append(";\nif (!nodes.length) return 'No node selected';\nconst results = [];\nfor (const node of nodes) { if (!node) continue; const bindings = {}; if (node.boundVariables) { for (const [prop, binding] of Object.entries(node.boundVariables)) { const b = Array.isArray(binding) ? binding[0] : binding; if (b && b.id) { const v = await figma.variables.getVariableByIdAsync(b.id); bindings[prop] = v ? v.name : b.id; } } } results.push({ id: node.id, name: node.name, bindings }); }\nreturn results;");
    wrap_async(body.as_str())
}

/// Script for `get`.
pub open spec fn get_js(node_id: Option<Seq<char>>) -> Seq<char> {
    let lookup = match node_id {
        Some(id) => "const n = await figma.getNodeByIdAsync("@
        + json_quote(id)
        + ");"@,
        None => "const n = figma.currentPage.selection[0];"@,
    };
    wrap_async_js(
        lookup
        + "\nif (!n) return 'No node';\nreturn { id: n.id, name: n.name, type: n.type, x: n.x, y: n.y, width: n.width, height: n.height, visible: n.visible, layoutMode: n.layoutMode };"@
    )
}

/// Script that reports a node by id, or the first selected node.
pub fn get(node_id: Option<&str>) -> (script: String)
    ensures
        script@ == get_js(opt_text(node_id)),
{
    let lookup = match node_id {
        Some(node) => {
            let id = js_string(node);
            let mut l = String::from_str("const n = await figma.getNodeByIdAsync(");
            l.append(id.as_str());
            l.append(");");
            l
        },
        None => String::from_str("const n = figma.currentPage.selection[0];"),
    };
    let mut body = String::from_str(lookup.as_str());
    body.append("\nif (!n) return 'No node';\nreturn { id: n.id, name: n.name, type: n.type, x: n.x, y: n.y, width: n.width, height: n.height, visible: n.visible, layoutMode: n.layoutMode };");
    wrap_async(body.as_str())
}

/// Law: `set pos x y` puts each chosen node at `x` across and `y` down: the
/// script sets `n.x` to `x` and `n.y` to `y`.
pub proof fn lemma_set_pos_x_then_y(sel: Sel, x: Seq<char>, y: Seq<char>)
    ensures
        contains_text(set_pos_js(sel, x, y), "n.x = "@ + x + ";"@),
        contains_text(set_pos_js(sel, x, y), "n.y = "@ + y + ";"@),
{
    assert(contains_text(set_pos_js(sel, x, y), "n.x = "@ + x + ";"@)) by {
        reveal_strlit("\nif (nodes.length === 0) return 'No node found';\nnodes.forEach(n => { ");
        reveal_strlit("\n})()");
        reveal_strlit(" n.y = ");
        reveal_strlit(" on ' + nodes.length + ' element(s)';");
        reveal_strlit(" });\nreturn '");
        reveal_strlit("(async () => {\n");
        reveal_strlit(";");
        reveal_strlit("; n.y = ");
        reveal_strlit("Position set");
        reveal_strlit("n.x = ");
        assert("; n.y = "@ =~= ";"@ + " n.y = "@);
        let a = "(async () => {\n"@ + sel.selector_js() + "\nif (nodes.length === 0) return 'No node found';\nnodes.forEach(n => { "@;
        let p = "n.x = "@ + x + ";"@;
        let c = " n.y = "@ + y + ";"@ + " });\nreturn '"@ + "Position set"@ + " on ' + nodes.length + ' element(s)';"@ + "\n})()"@;
        assert(set_pos_js(sel, x, y) =~= a + p + c);
        lemma_contains_mid(a, p, c);
    }
    assert(contains_text(set_pos_js(sel, x, y), "n.y = "@ + y + ";"@)) by {
        reveal_strlit("\nif (nodes.length === 0) return 'No node found';\nnodes.forEach(n => { ");
        reveal_strlit("\n})()");
        reveal_strlit(" on ' + nodes.length + ' element(s)';");
        reveal_strlit(" });\nreturn '");
        reveal_strlit("(async () => {\n");
        reveal_strlit(";");
        reveal_strlit("; ");
        reveal_strlit("; n.y = ");
        reveal_strlit("Position set");
        reveal_strlit("n.x = ");
        reveal_strlit("n.y = ");
        assert("; n.y = "@ =~= "; "@ + "n.y = "@);
        let a = "(async () => {\n"@ + sel.selector_js() + "\nif (nodes.length === 0) return 'No node found';\nnodes.forEach(n => { "@ + "n.x = "@ + x + "; "@;
        let p = "n.y = "@ + y + ";"@;
        let c = " });\nreturn '"@ + "Position set"@ + " on ' + nodes.length + ' element(s)';"@ + "\n})()"@;
        assert(set_pos_js(sel, x, y) =~= a + p + c);
        lemma_contains_mid(a, p, c);
    }
}

/// Law: `set radius v` gives each chosen node with corners the radius `v`.
pub proof fn lemma_set_radius_value(sel: Sel, value: Seq<char>)
    ensures
        contains_text(set_radius_js(sel, value), "n.cornerRadius = "@ + value + ";"@),
{
    assert(contains_text(set_radius_js(sel, value), "n.cornerRadius = "@ + value + ";"@)) by {
        reveal_strlit("\nif (nodes.length === 0) return 'No node found';\nnodes.forEach(n => { ");
        reveal_strlit("\n})()");
        reveal_strlit(" on ' + nodes.length + ' element(s)';");
        reveal_strlit(" });\nreturn '");
        reveal_strlit("(async () => {\n");
        reveal_strlit(";");
        reveal_strlit("Radius set");
        reveal_strlit("if ('cornerRadius' in n) ");
        reveal_strlit("if ('cornerRadius' in n) n.cornerRadius = ");
        reveal_strlit("n.cornerRadius = ");
        assert("if ('cornerRadius' in n) n.cornerRadius = "@ =~= "if ('cornerRadius' in n) "@ + "n.cornerRadius = "@);
        let a = "(async () => {\n"@ + sel.selector_js() + "\nif (nodes.length === 0) return 'No node found';\nnodes.forEach(n => { "@ + "if ('cornerRadius' in n) "@;
        let p = "n.cornerRadius = "@ + value + ";"@;
        let c = " });\nreturn '"@ + "Radius set"@ + " on ' + nodes.length + ' element(s)';"@ + "\n})()"@;
        assert(set_radius_js(sel, value) =~= a + p + c);
        lemma_contains_mid(a, p, c);
    }
}

/// Law: `set opacity v` gives each chosen node the opacity `v`.
pub proof fn lemma_set_opacity_value(sel: Sel, v: Seq<char>)
    ensures
        contains_text(set_opacity_js(sel, v), "n.opacity = "@ + v + ";"@),
{
    assert(contains_text(set_opacity_js(sel, v), "n.opacity = "@ + v + ";"@)) by {
        reveal_strlit("\nif (nodes.length === 0) return 'No node found';\nnodes.forEach(n => { ");
        reveal_strlit("\n})()");
        reveal_strlit(" on ' + nodes.length + ' element(s)';");
        reveal_strlit(" });\nreturn '");
        reveal_strlit("(async () => {\n");
        reveal_strlit(";");
        reveal_strlit("Opacity set");
        reveal_strlit("if ('opacity' in n) ");
        reveal_strlit("if ('opacity' in n) n.opacity = ");
        reveal_strlit("n.opacity = ");
        assert("if ('opacity' in n) n.opacity = "@ =~= "if ('opacity' in n) "@ + "n.opacity = "@);
        let a = "(async () => {\n"@ + sel.selector_js() + "\nif (nodes.length === 0) return 'No node found';\nnodes.forEach(n => { "@ + "if ('opacity' in n) "@;
        let p = "n.opacity = "@ + v + ";"@;
        let c = " });\nreturn '"@ + "Opacity set"@ + " on ' + nodes.length + ' element(s)';"@ + "\n})()"@;
        assert(set_opacity_js(sel, v) =~= a + p + c);
        lemma_contains_mid(a, p, c);
    }
}

/// Law: `set name t` names each chosen node `t` (as a JSON literal).
pub proof fn lemma_set_name_value(sel: Sel, name: Seq<char>)
    ensures
        contains_text(set_name_js(sel, name), "n.name = "@ + json_quote(name) + ";"@),
{
    assert(contains_text(set_name_js(sel, name), "n.name = "@ + json_quote(name) + ";"@)) by {
        reveal_strlit("\nif (nodes.length === 0) return 'No node found';\nnodes.forEach(n => { ");
        reveal_strlit("\n})()");
        reveal_strlit(" on ' + nodes.length + ' element(s)';");
        reveal_strlit(" });\nreturn '");
        reveal_strlit("(async () => {\n");
        reveal_strlit(";");
        reveal_strlit("Renamed");
        reveal_strlit("n.name = ");
        let a = "(async () => {\n"@ + sel.selector_js() + "\nif (nodes.length === 0) return 'No node found';\nnodes.forEach(n => { "@;
        let p = "n.name = "@ + json_quote(name) + ";"@;
        let c = " });\nreturn '"@ + "Renamed"@ + " on ' + nodes.length + ' element(s)';"@ + "\n})()"@;
        assert(set_name_js(sel, name) =~= a + p + c);
        lemma_contains_mid(a, p, c);
    }
}

/// Law: `sizing fixed w h` fixes each selected node at width `w` and height
/// `h`, in that order: the script calls `n.resize(w, h)`.
pub proof fn lemma_sizing_fixed_width_then_height(w: Seq<char>, h: Seq<char>)
    ensures
        contains_text(sizing_fixed_js(w, h), "n.resize("@ + w + ", "@ + h + ")"@),
{
    assert(contains_text(sizing_fixed_js(w, h), "n.resize("@ + w + ", "@ + h + ")"@)) by {
        reveal_strlit("\n})()");
        reveal_strlit(" on ' + nodes.length + ' element(s)';");
        reveal_strlit("(async () => {\n");
        reveal_strlit(")");
        reveal_strlit("); });\nreturn 'Set fixed ");
        reveal_strlit(", ");
        reveal_strlit("; });\nreturn 'Set fixed ");
        reveal_strlit("const nodes = figma.currentPage.selection;\nif (nodes.length === 0) return 'No selection';\nnodes.forEach(n => { if ('layoutSizingHorizontal' in n) n.layoutSizingHorizontal = 'FIXED'; if ('layoutSizingVertical' in n) n.layoutSizingVertical = 'FIXED'; if ('resize' in n) ");
        reveal_strlit("const nodes = figma.currentPage.selection;\nif (nodes.length === 0) return 'No selection';\nnodes.forEach(n => { if ('layoutSizingHorizontal' in n) n.layoutSizingHorizontal = 'FIXED'; if ('layoutSizingVertical' in n) n.layoutSizingVertical = 'FIXED'; if ('resize' in n) n.resize(");
        reveal_strlit("n.resize(");
        reveal_strlit("x");
        assert("const nodes = figma.currentPage.selection;\nif (nodes.length === 0) return 'No selection';\nnodes.forEach(n => { if ('layoutSizingHorizontal' in n) n.layoutSizingHorizontal = 'FIXED'; if ('layoutSizingVertical' in n) n.layoutSizingVertical = 'FIXED'; if ('resize' in n) n.resize("@ =~= "const nodes = figma.currentPage.selection;\nif (nodes.length === 0) return 'No selection';\nnodes.forEach(n => { if ('layoutSizingHorizontal' in n) n.layoutSizingHorizontal = 'FIXED'; if ('layoutSizingVertical' in n) n.layoutSizingVertical = 'FIXED'; if ('resize' in n) "@ + "n.resize("@);
        assert("); });\nreturn 'Set fixed "@ =~= ")"@ + "; });\nreturn 'Set fixed "@);
        let a = "(async () => {\n"@ + "const nodes = figma.currentPage.selection;\nif (nodes.length === 0) return 'No selection';\nnodes.forEach(n => { if ('layoutSizingHorizontal' in n) n.layoutSizingHorizontal = 'FIXED'; if ('layoutSizingVertical' in n) n.layoutSizingVertical = 'FIXED'; if ('resize' in n) "@;
        let p = "n.resize("@ + w + ", "@ + h + ")"@;
        let c = "; });\nreturn 'Set fixed "@ + w + "x"@ + h + " on ' + nodes.length + ' element(s)';"@ + "\n})()"@;
        assert(sizing_fixed_js(w, h) =~= a + p + c);
        lemma_contains_mid(a, p, c);
    }
}

/// Law: `gap v` sets the item spacing of each selected node to `v`.
pub proof fn lemma_set_gap_value(value: Seq<char>)
    ensures
        contains_text(set_gap_js(value), "n.itemSpacing = "@ + value + ";"@),
{
    assert(contains_text(set_gap_js(value), "n.itemSpacing = "@ + value + ";"@)) by {
        reveal_strlit("\n})()");
        reveal_strlit(" on ' + nodes.length + ' element(s)';");
        reveal_strlit(" });\nreturn 'Set gap ");
        reveal_strlit("(async () => {\n");
        reveal_strlit(";");
        reveal_strlit("; });\nreturn 'Set gap ");
        reveal_strlit("const nodes = figma.currentPage.selection;\nif (nodes.length === 0) return 'No selection';\nnodes.forEach(n => { if ('itemSpacing' in n) ");
        reveal_strlit("const nodes = figma.currentPage.selection;\nif (nodes.length === 0) return 'No selection';\nnodes.forEach(n => { if ('itemSpacing' in n) n.itemSpacing = ");
        reveal_strlit("n.itemSpacing = ");
        assert("const nodes = figma.currentPage.selection;\nif (nodes.length === 0) return 'No selection';\nnodes.forEach(n => { if ('itemSpacing' in n) n.itemSpacing = "@ =~= "const nodes = figma.currentPage.selection;\nif (nodes.length === 0) return 'No selection';\nnodes.forEach(n => { if ('itemSpacing' in n) "@ + "n.itemSpacing = "@);
        assert("; });\nreturn 'Set gap "@ =~= ";"@ + " });\nreturn 'Set gap "@);
        let a = "(async () => {\n"@ + "const nodes = figma.currentPage.selection;\nif (nodes.length === 0) return 'No selection';\nnodes.forEach(n => { if ('itemSpacing' in n) "@;
        let p = "n.itemSpacing = "@ + value + ";"@;
        let c = " });\nreturn 'Set gap "@ + value + " on ' + nodes.length + ' element(s)';"@ + "\n})()"@;
        assert(set_gap_js(value) =~= a + p + c);
        lemma_contains_mid(a, p, c);
    }
}

/// Law: `figjam shape` makes a shape of type `shape_type` at (`x`, `y`) with
/// width `w` and height `h`, in that order, holding `text`.
#[verifier::spinoff_prover]
#[verifier::rlimit(40)]
pub proof fn lemma_figjam_shape_place_and_size(text: Seq<char>, x: Seq<char>, y: Seq<char>, w: Seq<char>, h: Seq<char>, shape_type: Seq<char>)
    ensures
        contains_text(figjam_shape_js(text, x, y, w, h, shape_type), "shape.shapeType = "@ + json_quote(shape_type) + ";"@),
        contains_text(figjam_shape_js(text, x, y, w, h, shape_type), "shape.x = "@ + x + ";"@),
        contains_text(figjam_shape_js(text, x, y, w, h, shape_type), "shape.y = "@ + y + ";"@),
        contains_text(figjam_shape_js(text, x, y, w, h, shape_type), "shape.resize("@ + w + ", "@ + h + ")"@),
        contains_text(figjam_shape_js(text, x, y, w, h, shape_type), "shape.text.characters = "@ + json_quote(text) + ";"@),
{
    assert(contains_text(figjam_shape_js(text, x, y, w, h, shape_type), "shape.shapeType = "@ + json_quote(shape_type) + ";"@)) by {
        reveal_strlit("\nshape.x = ");
        reveal_strlit("\n})()");
        reveal_strlit("(async () => {\n");
        reveal_strlit(");\nif (shape.text) { await figma.loadFontAsync({ family: 'Inter', style: 'Medium' }); shape.text.characters = ");
        reveal_strlit(", ");
        reveal_strlit(";");
        reveal_strlit(";\nshape.resize(");
        reveal_strlit(";\nshape.x = ");
        reveal_strlit("; shape.y = ");
        reveal_strlit("; }\nreturn { id: shape.id, x: shape.x, y: shape.y };");
        reveal_strlit("const shape = figma.createShapeWithText();\n");
        reveal_strlit("const shape = figma.createShapeWithText();\nshape.shapeType = ");
        reveal_strlit("shape.shapeType = ");
        assert("const shape = figma.createShapeWithText();\nshape.shapeType = "@ =~= "const shape = figma.createShapeWithText();\n"@ + "shape.shapeType = "@);
        assert(";\nshape.x = "@ =~= ";"@ + "\nshape.x = "@);
        let a = "(async () => {\n"@ + "const shape = figma.createShapeWithText();\n"@;
        let p = "shape.shapeType = "@ + json_quote(shape_type) + ";"@;
        let c = "\nshape.x = "@ + x + "; shape.y = "@ + y + ";\nshape.resize("@ + w + ", "@ + h + ");\nif (shape.text) { await figma.loadFontAsync({ family: 'Inter', style: 'Medium' }); shape.text.characters = "@ + json_quote(text) + "; }\nreturn { id: shape.id, x: shape.x, y: shape.y };"@ + "\n})()"@;
        assert(figjam_shape_js(text, x, y, w, h, shape_type) =~= a + p + c);
        lemma_contains_mid(a, p, c);
    }
    assert(contains_text(figjam_shape_js(text, x, y, w, h, shape_type), "shape.x = "@ + x + ";"@)) by {
        reveal_strlit("\n})()");
        reveal_strlit(" shape.y = ");
        reveal_strlit("(async () => {\n");
        reveal_strlit(");\nif (shape.text) { await figma.loadFontAsync({ family: 'Inter', style: 'Medium' }); shape.text.characters = ");
        reveal_strlit(", ");
        reveal_strlit(";");
        reveal_strlit(";\n");
        reveal_strlit(";\nshape.resize(");
        reveal_strlit(";\nshape.x = ");
        reveal_strlit("; shape.y = ");
        reveal_strlit("; }\nreturn { id: shape.id, x: shape.x, y: shape.y };");
        reveal_strlit("const shape = figma.createShapeWithText();\nshape.shapeType = ");
        reveal_strlit("shape.x = ");
        assert(";\nshape.x = "@ =~= ";\n"@ + "shape.x = "@);
        assert("; shape.y = "@ =~= ";"@ + " shape.y = "@);
        let a = "(async () => {\n"@ + "const shape = figma.createShapeWithText();\nshape.shapeType = "@ + json_quote(shape_type) + ";\n"@;
        let p = "shape.x = "@ + x + ";"@;
        let c = " shape.y = "@ + y + ";\nshape.resize("@ + w + ", "@ + h + ");\nif (shape.text) { await figma.loadFontAsync({ family: 'Inter', style: 'Medium' }); shape.text.characters = "@ + json_quote(text) + "; }\nreturn { id: shape.id, x: shape.x, y: shape.y };"@ + "\n})()"@;
        assert(figjam_shape_js(text, x, y, w, h, shape_type) =~= a + p + c);
        lemma_contains_mid(a, p, c);
    }
    assert(contains_text(figjam_shape_js(text, x, y, w, h, shape_type), "shape.y = "@ + y + ";"@)) by {
        reveal_strlit("\nshape.resize(");
        reveal_strlit("\n})()");
        reveal_strlit("(async () => {\n");
        reveal_strlit(");\nif (shape.text) { await figma.loadFontAsync({ family: 'Inter', style: 'Medium' }); shape.text.characters = ");
        reveal_strlit(", ");
        reveal_strlit(";");
        reveal_strlit(";\nshape.resize(");
        reveal_strlit(";\nshape.x = ");
        reveal_strlit("; ");
        reveal_strlit("; shape.y = ");
        reveal_strlit("; }\nreturn { id: shape.id, x: shape.x, y: shape.y };");
        reveal_strlit("const shape = figma.createShapeWithText();\nshape.shapeType = ");
        reveal_strlit("shape.y = ");
        assert("; shape.y = "@ =~= "; "@ + "shape.y = "@);
        assert(";\nshape.resize("@ =~= ";"@ + "\nshape.resize("@);
        let a = "(async () => {\n"@ + "const shape = figma.createShapeWithText();\nshape.shapeType = "@ + json_quote(shape_type) + ";\nshape.x = "@ + x + "; "@;
        let p = "shape.y = "@ + y + ";"@;
        let c = "\nshape.resize("@ + w + ", "@ + h + ");\nif (shape.text) { await figma.loadFontAsync({ family: 'Inter', style: 'Medium' }); shape.text.characters = "@ + json_quote(text) + "; }\nreturn { id: shape.id, x: shape.x, y: shape.y };"@ + "\n})()"@;
        assert(figjam_shape_js(text, x, y, w, h, shape_type) =~= a + p + c);
        lemma_contains_mid(a, p, c);
    }
    assert(contains_text(figjam_shape_js(text, x, y, w, h, shape_type), "shape.resize("@ + w + ", "@ + h + ")"@)) by {
        reveal_strlit("\n})()");
        reveal_strlit("(async () => {\n");
        reveal_strlit(")");
        reveal_strlit(");\nif (shape.text) { await figma.loadFontAsync({ family: 'Inter', style: 'Medium' }); shape.text.characters = ");
        reveal_strlit(", ");
        reveal_strlit(";\n");
        reveal_strlit(";\nif (shape.text) { await figma.loadFontAsync({ family: 'Inter', style: 'Medium' }); shape.text.characters = ");
        reveal_strlit(";\nshape.resize(");
        reveal_strlit(";\nshape.x = ");
        reveal_strlit("; shape.y = ");
        reveal_strlit("; }\nreturn { id: shape.id, x: shape.x, y: shape.y };");
        reveal_strlit("const shape = figma.createShapeWithText();\nshape.shapeType = ");
        reveal_strlit("shape.resize(");
        assert(";\nshape.resize("@ =~= ";\n"@ + "shape.resize("@);
        assert(");\nif (shape.text) { await figma.loadFontAsync({ family: 'Inter', style: 'Medium' }); shape.text.characters = "@ =~= ")"@ + ";\nif (shape.text) { await figma.loadFontAsync({ family: 'Inter', style: 'Medium' }); shape.text.characters = "@);
        let a = "(async () => {\n"@ + "const shape = figma.createShapeWithText();\nshape.shapeType = "@ + json_quote(shape_type) + ";\nshape.x = "@ + x + "; shape.y = "@ + y + ";\n"@;
        let p = "shape.resize("@ + w + ", "@ + h + ")"@;
        let c = ";\nif (shape.text) { await figma.loadFontAsync({ family: 'Inter', style: 'Medium' }); shape.text.characters = "@ + json_quote(text) + "; }\nreturn { id: shape.id, x: shape.x, y: shape.y };"@ + "\n})()"@;
        assert(figjam_shape_js(text, x, y, w, h, shape_type) =~= a + p + c);
        lemma_contains_mid(a, p, c);
    }
    assert(contains_text(figjam_shape_js(text, x, y, w, h, shape_type), "shape.text.characters = "@ + json_quote(text) + ";"@)) by {
        reveal_strlit("\n})()");
        reveal_strlit(" }\nreturn { id: shape.id, x: shape.x, y: shape.y };");
        reveal_strlit("(async () => {\n");
        reveal_strlit(");\nif (shape.text) { await figma.loadFontAsync({ family: 'Inter', style: 'Medium' }); ");
        reveal_strlit(");\nif (shape.text) { await figma.loadFontAsync({ family: 'Inter', style: 'Medium' }); shape.text.characters = ");
        reveal_strlit(", ");
        reveal_strlit(";");
        reveal_strlit(";\nshape.resize(");
        reveal_strlit(";\nshape.x = ");
        reveal_strlit("; shape.y = ");
        reveal_strlit("; }\nreturn { id: shape.id, x: shape.x, y: shape.y };");
        reveal_strlit("const shape = figma.createShapeWithText();\nshape.shapeType = ");
        reveal_strlit("shape.text.characters = ");
        assert(");\nif (shape.text) { await figma.loadFontAsync({ family: 'Inter', style: 'Medium' }); shape.text.characters = "@ =~= ");\nif (shape.text) { await figma.loadFontAsync({ family: 'Inter', style: 'Medium' }); "@ + "shape.text.characters = "@);
        assert("; }\nreturn { id: shape.id, x: shape.x, y: shape.y };"@ =~= ";"@ + " }\nreturn { id: shape.id, x: shape.x, y: shape.y };"@);
        let a = "(async () => {\n"@ + "const shape = figma.createShapeWithText();\nshape.shapeType = "@ + json_quote(shape_type) + ";\nshape.x = "@ + x + "; shape.y = "@ + y + ";\nshape.resize("@ + w + ", "@ + h + ");\nif (shape.text) { await figma.loadFontAsync({ family: 'Inter', style: 'Medium' }); "@;
        let p = "shape.text.characters = "@ + json_quote(text) + ";"@;
        let c = " }\nreturn { id: shape.id, x: shape.x, y: shape.y };"@ + "\n})()"@;
        assert(figjam_shape_js(text, x, y, w, h, shape_type) =~= a + p + c);
        lemma_contains_mid(a, p, c);
    }
}

/// Law: `figjam text` writes `content` at (`x`, `y`) in font size `size`.
pub proof fn lemma_figjam_text_place_and_size(content: Seq<char>, x: Seq<char>, y: Seq<char>, size: Seq<char>)
    ensures
        contains_text(figjam_text_js(content, x, y, size), "textNode.x = "@ + x + ";"@),
        contains_text(figjam_text_js(content, x, y, size), "textNode.y = "@ + y + ";"@),
        contains_text(figjam_text_js(content, x, y, size), "textNode.characters = "@ + json_quote(content) + ";"@),
        contains_text(figjam_text_js(content, x, y, size), "textNode.fontSize = "@ + size + ";"@),
{
    assert(contains_text(figjam_text_js(content, x, y, size), "textNode.x = "@ + x + ";"@)) by {
        reveal_strlit("\n})()");
        reveal_strlit(" textNode.y = ");
        reveal_strlit("(async () => {\n");
        reveal_strlit(";");
        reveal_strlit(";\nawait figma.loadFontAsync({ family: 'Inter', style: 'Medium' });\ntextNode.fontName = { family: 'Inter', style: 'Medium' };\ntextNode.characters = ");
        reveal_strlit(";\nreturn { id: textNode.id, x: textNode.x, y: textNode.y };");
        reveal_strlit(";\ntextNode.fontSize = ");
        reveal_strlit("; textNode.y = ");
        reveal_strlit("const textNode = figma.createText();\n");
        reveal_strlit("const textNode = figma.createText();\ntextNode.x = ");
        reveal_strlit("textNode.x = ");
        assert("const textNode = figma.createText();\ntextNode.x = "@ =~= "const textNode = figma.createText();\n"@ + "textNode.x = "@);
        assert("; textNode.y = "@ =~= ";"@ + " textNode.y = "@);
        let a = "(async () => {\n"@ + "const textNode = figma.createText();\n"@;
        let p = "textNode.x = "@ + x + ";"@;
        let c = " textNode.y = "@ + y + ";\nawait figma.loadFontAsync({ family: 'Inter', style: 'Medium' });\ntextNode.fontName = { family: 'Inter', style: 'Medium' };\ntextNode.characters = "@ + json_quote(content) + ";\ntextNode.fontSize = "@ + size + ";\nreturn { id: textNode.id, x: textNode.x, y: textNode.y };"@ + "\n})()"@;
        assert(figjam_text_js(content, x, y, size) =~= a + p + c);
        lemma_contains_mid(a, p, c);
    }
    assert(contains_text(figjam_text_js(content, x, y, size), "textNode.y = "@ + y + ";"@)) by {
        reveal_strlit("\nawait figma.loadFontAsync({ family: 'Inter', style: 'Medium' });\ntextNode.fontName = { family: 'Inter', style: 'Medium' };\ntextNode.characters = ");
        reveal_strlit("\n})()");
        reveal_strlit("(async () => {\n");
        reveal_strlit(";");
        reveal_strlit(";\nawait figma.loadFontAsync({ family: 'Inter', style: 'Medium' });\ntextNode.fontName = { family: 'Inter', style: 'Medium' };\ntextNode.characters = ");
        reveal_strlit(";\nreturn { id: textNode.id, x: textNode.x, y: textNode.y };");
        reveal_strlit(";\ntextNode.fontSize = ");
        reveal_strlit("; ");
        reveal_strlit("; textNode.y = ");
        reveal_strlit("const textNode = figma.createText();\ntextNode.x = ");
        reveal_strlit("textNode.y = ");
        assert("; textNode.y = "@ =~= "; "@ + "textNode.y = "@);
        assert(";\nawait figma.loadFontAsync({ family: 'Inter', style: 'Medium' });\ntextNode.fontName = { family: 'Inter', style: 'Medium' };\ntextNode.characters = "@ =~= ";"@ + "\nawait figma.loadFontAsync({ family: 'Inter', style: 'Medium' });\ntextNode.fontName = { family: 'Inter', style: 'Medium' };\ntextNode.characters = "@);
        let a = "(async () => {\n"@ + "const textNode = figma.createText();\ntextNode.x = "@ + x + "; "@;
        let p = "textNode.y = "@ + y + ";"@;
        let c = "\nawait figma.loadFontAsync({ family: 'Inter', style: 'Medium' });\ntextNode.fontName = { family: 'Inter', style: 'Medium' };\ntextNode.characters = "@ + json_quote(content) + ";\ntextNode.fontSize = "@ + size + ";\nreturn { id: textNode.id, x: textNode.x, y: textNode.y };"@ + "\n})()"@;
        assert(figjam_text_js(content, x, y, size) =~= a + p + c);
        lemma_contains_mid(a, p, c);
    }
    assert(contains_text(figjam_text_js(content, x, y, size), "textNode.characters = "@ + json_quote(content) + ";"@)) by {
        reveal_strlit("\ntextNode.fontSize = ");
        reveal_strlit("\n})()");
        reveal_strlit("(async () => {\n");
        reveal_strlit(";");
        reveal_strlit(";\nawait figma.loadFontAsync({ family: 'Inter', style: 'Medium' });\ntextNode.fontName = { family: 'Inter', style: 'Medium' };\n");
        reveal_strlit(";\nawait figma.loadFontAsync({ family: 'Inter', style: 'Medium' });\ntextNode.fontName = { family: 'Inter', style: 'Medium' };\ntextNode.characters = ");
        reveal_strlit(";\nreturn { id: textNode.id, x: textNode.x, y: textNode.y };");
        reveal_strlit(";\ntextNode.fontSize = ");
        reveal_strlit("; textNode.y = ");
        reveal_strlit("const textNode = figma.createText();\ntextNode.x = ");
        reveal_strlit("textNode.characters = ");
        assert(";\nawait figma.loadFontAsync({ family: 'Inter', style: 'Medium' });\ntextNode.fontName = { family: 'Inter', style: 'Medium' };\ntextNode.characters = "@ =~= ";\nawait figma.loadFontAsync({ family: 'Inter', style: 'Medium' });\ntextNode.fontName = { family: 'Inter', style: 'Medium' };\n"@ + "textNode.characters = "@);
        assert(";\ntextNode.fontSize = "@ =~= ";"@ + "\ntextNode.fontSize = "@);
        let a = "(async () => {\n"@ + "const textNode = figma.createText();\ntextNode.x = "@ + x + "; textNode.y = "@ + y + ";\nawait figma.loadFontAsync({ family: 'Inter', style: 'Medium' });\ntextNode.fontName = { family: 'Inter', style: 'Medium' };\n"@;
        let p = "textNode.characters = "@ + json_quote(content) + ";"@;
        let c = "\ntextNode.fontSize = "@ + size + ";\nreturn { id: textNode.id, x: textNode.x, y: textNode.y };"@ + "\n})()"@;
        assert(figjam_text_js(content, x, y, size) =~= a + p + c);
        lemma_contains_mid(a, p, c);
    }
    assert(contains_text(figjam_text_js(content, x, y, size), "textNode.fontSize = "@ + size + ";"@)) by {
        reveal_strlit("\nreturn { id: textNode.id, x: textNode.x, y: textNode.y };");
        reveal_strlit("\n})()");
        reveal_strlit("(async () => {\n");
        reveal_strlit(";");
        reveal_strlit(";\n");
        reveal_strlit(";\nawait figma.loadFontAsync({ family: 'Inter', style: 'Medium' });\ntextNode.fontName = { family: 'Inter', style: 'Medium' };\ntextNode.characters = ");
        reveal_strlit(";\nreturn { id: textNode.id, x: textNode.x, y: textNode.y };");
        reveal_strlit(";\ntextNode.fontSize = ");
        reveal_strlit("; textNode.y = ");
        reveal_strlit("const textNode = figma.createText();\ntextNode.x = ");
        reveal_strlit("textNode.fontSize = ");
        assert(";\ntextNode.fontSize = "@ =~= ";\n"@ + "textNode.fontSize = "@);
        assert(";\nreturn { id: textNode.id, x: textNode.x, y: textNode.y };"@ =~= ";"@ + "\nreturn { id: textNode.id, x: textNode.x, y: textNode.y };"@);
        let a = "(async () => {\n"@ + "const textNode = figma.createText();\ntextNode.x = "@ + x + "; textNode.y = "@ + y + ";\nawait figma.loadFontAsync({ family: 'Inter', style: 'Medium' });\ntextNode.fontName = { family: 'Inter', style: 'Medium' };\ntextNode.characters = "@ + json_quote(content) + ";\n"@;
        let p = "textNode.fontSize = "@ + size + ";"@;
        let c = "\nreturn { id: textNode.id, x: textNode.x, y: textNode.y };"@ + "\n})()"@;
        assert(figjam_text_js(content, x, y, size) =~= a + p + c);
        lemma_contains_mid(a, p, c);
    }
}

/// Law: `figjam connect a b` draws the connector from node `a` to node `b`:
/// the start node is looked up by `a`, the end node by `b`.
pub proof fn lemma_figjam_connect_start_to_end(start_id: Seq<char>, end_id: Seq<char>)
    ensures
        contains_text(figjam_connect_js(start_id, end_id), "const startNode = await figma.getNodeByIdAsync("@ + json_quote(start_id) + ")"@),
        contains_text(figjam_connect_js(start_id, end_id), "const endNode = await figma.getNodeByIdAsync("@ + json_quote(end_id) + ")"@),
{
    assert(contains_text(figjam_connect_js(start_id, end_id), "const startNode = await figma.getNodeByIdAsync("@ + json_quote(start_id) + ")"@)) by {
        reveal_strlit("\n})()");
        reveal_strlit("(async () => {\n");
        reveal_strlit(")");
        reveal_strlit(");\nconst endNode = await figma.getNodeByIdAsync(");
        reveal_strlit(");\nif (!startNode || !endNode) return { error: 'Node not found' };\nconst connector = figma.createConnector();\nconnector.connectorStart = { endpointNodeId: startNode.id, magnet: 'AUTO' };\nconnector.connectorEnd = { endpointNodeId: endNode.id, magnet: 'AUTO' };\nreturn { id: connector.id };");
        reveal_strlit(";\nconst endNode = await figma.getNodeByIdAsync(");
        reveal_strlit("const startNode = await figma.getNodeByIdAsync(");
        assert(");\nconst endNode = await figma.getNodeByIdAsync("@ =~= ")"@ + ";\nconst endNode = await figma.getNodeByIdAsync("@);
        let a = "(async () => {\n"@;
        let p = "const startNode = await figma.getNodeByIdAsync("@ + json_quote(start_id) + ")"@;
        let c = ";\nconst endNode = await figma.getNodeByIdAsync("@ + json_quote(end_id) + ");\nif (!startNode || !endNode) return { error: 'Node not found' };\nconst connector = figma.createConnector();\nconnector.connectorStart = { endpointNodeId: startNode.id, magnet: 'AUTO' };\nconnector.connectorEnd = { endpointNodeId: endNode.id, magnet: 'AUTO' };\nreturn { id: connector.id };"@ + "\n})()"@;
        assert(figjam_connect_js(start_id, end_id) =~= a + p + c);
        lemma_contains_mid(a, p, c);
    }
    assert(contains_text(figjam_connect_js(start_id, end_id), "const endNode = await figma.getNodeByIdAsync("@ + json_quote(end_id) + ")"@)) by {
        reveal_strlit("\n})()");
        reveal_strlit("(async () => {\n");
        reveal_strlit(")");
        reveal_strlit(");\n");
        reveal_strlit(");\nconst endNode = await figma.getNodeByIdAsync(");
        reveal_strlit(");\nif (!startNode || !endNode) return { error: 'Node not found' };\nconst connector = figma.createConnector();\nconnector.connectorStart = { endpointNodeId: startNode.id, magnet: 'AUTO' };\nconnector.connectorEnd = { endpointNodeId: endNode.id, magnet: 'AUTO' };\nreturn { id: connector.id };");
        reveal_strlit(";\nif (!startNode || !endNode) return { error: 'Node not found' };\nconst connector = figma.createConnector();\nconnector.connectorStart = { endpointNodeId: startNode.id, magnet: 'AUTO' };\nconnector.connectorEnd = { endpointNodeId: endNode.id, magnet: 'AUTO' };\nreturn { id: connector.id };");
        reveal_strlit("const endNode = await figma.getNodeByIdAsync(");
        reveal_strlit("const startNode = await figma.getNodeByIdAsync(");
        assert(");\nconst endNode = await figma.getNodeByIdAsync("@ =~= ");\n"@ + "const endNode = await figma.getNodeByIdAsync("@);
        assert(");\nif (!startNode || !endNode) return { error: 'Node not found' };\nconst connector = figma.createConnector();\nconnector.connectorStart = { endpointNodeId: startNode.id, magnet: 'AUTO' };\nconnector.connectorEnd = { endpointNodeId: endNode.id, magnet: 'AUTO' };\nreturn { id: connector.id };"@ =~= ")"@ + ";\nif (!startNode || !endNode) return { error: 'Node not found' };\nconst connector = figma.createConnector();\nconnector.connectorStart = { endpointNodeId: startNode.id, magnet: 'AUTO' };\nconnector.connectorEnd = { endpointNodeId: endNode.id, magnet: 'AUTO' };\nreturn { id: connector.id };"@);
        let a = "(async () => {\n"@ + "const startNode = await figma.getNodeByIdAsync("@ + json_quote(start_id) + ");\n"@;
        let p = "const endNode = await figma.getNodeByIdAsync("@ + json_quote(end_id) + ")"@;
        let c = ";\nif (!startNode || !endNode) return { error: 'Node not found' };\nconst connector = figma.createConnector();\nconnector.connectorStart = { endpointNodeId: startNode.id, magnet: 'AUTO' };\nconnector.connectorEnd = { endpointNodeId: endNode.id, magnet: 'AUTO' };\nreturn { id: connector.id };"@ + "\n})()"@;
        assert(figjam_connect_js(start_id, end_id) =~= a + p + c);
        lemma_contains_mid(a, p, c);
    }
}

/// The statements of the script built from these pieces.
proof fn lemma_sticky_layout(text: Seq<char>, x: Seq<char>, y: Seq<char>, fill: Seq<char>)
    ensures
        contains_text(wrap_async_js("const sticky = figma.createSticky();\nsticky.x = "@ + x + "; sticky.y = "@ + y + ";\n"@ + fill + "\nawait figma.loadFontAsync({ family: 'Inter', style: 'Medium' });\nsticky.text.characters = "@ + json_quote(text) + ";\nreturn { id: sticky.id, x: sticky.x, y: sticky.y };"@), "sticky.x = "@ + x + ";"@),
        contains_text(wrap_async_js("const sticky = figma.createSticky();\nsticky.x = "@ + x + "; sticky.y = "@ + y + ";\n"@ + fill + "\nawait figma.loadFontAsync({ family: 'Inter', style: 'Medium' });\nsticky.text.characters = "@ + json_quote(text) + ";\nreturn { id: sticky.id, x: sticky.x, y: sticky.y };"@), "sticky.y = "@ + y + ";"@),
        contains_text(wrap_async_js("const sticky = figma.createSticky();\nsticky.x = "@ + x + "; sticky.y = "@ + y + ";\n"@ + fill + "\nawait figma.loadFontAsync({ family: 'Inter', style: 'Medium' });\nsticky.text.characters = "@ + json_quote(text) + ";\nreturn { id: sticky.id, x: sticky.x, y: sticky.y };"@), "sticky.text.characters = "@ + json_quote(text) + ";"@),
{
    assert(contains_text(wrap_async_js("const sticky = figma.createSticky();\nsticky.x = "@ + x + "; sticky.y = "@ + y + ";\n"@ + fill + "\nawait figma.loadFontAsync({ family: 'Inter', style: 'Medium' });\nsticky.text.characters = "@ + json_quote(text) + ";\nreturn { id: sticky.id, x: sticky.x, y: sticky.y };"@), "sticky.x = "@ + x + ";"@)) by {
        reveal_strlit("\nawait figma.loadFontAsync({ family: 'Inter', style: 'Medium' });\nsticky.text.characters = ");
        reveal_strlit("\n})()");
        reveal_strlit(" sticky.y = ");
        reveal_strlit("(async () => {\n");
        reveal_strlit(";");
        reveal_strlit(";\n");
        reveal_strlit(";\nreturn { id: sticky.id, x: sticky.x, y: sticky.y };");
        reveal_strlit("; sticky.y = ");
        reveal_strlit("const sticky = figma.createSticky();\n");
        reveal_strlit("const sticky = figma.createSticky();\nsticky.x = ");
        reveal_strlit("sticky.x = ");
        assert("const sticky = figma.createSticky();\nsticky.x = "@ =~= "const sticky = figma.createSticky();\n"@ + "sticky.x = "@);
        assert("; sticky.y = "@ =~= ";"@ + " sticky.y = "@);
        let a = "(async () => {\n"@ + "const sticky = figma.createSticky();\n"@;
        let p = "sticky.x = "@ + x + ";"@;
        let c = " sticky.y = "@ + y + ";\n"@ + fill + "\nawait figma.loadFontAsync({ family: 'Inter', style: 'Medium' });\nsticky.text.characters = "@ + json_quote(text) + ";\nreturn { id: sticky.id, x: sticky.x, y: sticky.y };"@ + "\n})()"@;
        assert(wrap_async_js("const sticky = figma.createSticky();\nsticky.x = "@ + x + "; sticky.y = "@ + y + ";\n"@ + fill + "\nawait figma.loadFontAsync({ family: 'Inter', style: 'Medium' });\nsticky.text.characters = "@ + json_quote(text) + ";\nreturn { id: sticky.id, x: sticky.x, y: sticky.y };"@) =~= a + p + c);
        lemma_contains_mid(a, p, c);
    }
    assert(contains_text(wrap_async_js("const sticky = figma.createSticky();\nsticky.x = "@ + x + "; sticky.y = "@ + y + ";\n"@ + fill + "\nawait figma.loadFontAsync({ family: 'Inter', style: 'Medium' });\nsticky.text.characters = "@ + json_quote(text) + ";\nreturn { id: sticky.id, x: sticky.x, y: sticky.y };"@), "sticky.y = "@ + y + ";"@)) by {
        reveal_strlit("\n");
        reveal_strlit("\nawait figma.loadFontAsync({ family: 'Inter', style: 'Medium' });\nsticky.text.characters = ");
        reveal_strlit("\n})()");
        reveal_strlit("(async () => {\n");
        reveal_strlit(";");
        reveal_strlit(";\n");
        reveal_strlit(";\nreturn { id: sticky.id, x: sticky.x, y: sticky.y };");
        reveal_strlit("; ");
        reveal_strlit("; sticky.y = ");
        reveal_strlit("const sticky = figma.createSticky();\nsticky.x = ");
        reveal_strlit("sticky.y = ");
        assert("; sticky.y = "@ =~= "; "@ + "sticky.y = "@);
        assert(";\n"@ =~= ";"@ + "\n"@);
        let a = "(async () => {\n"@ + "const sticky = figma.createSticky();\nsticky.x = "@ + x + "; "@;
        let p = "sticky.y = "@ + y + ";"@;
        let c = "\n"@ + fill + "\nawait figma.loadFontAsync({ family: 'Inter', style: 'Medium' });\nsticky.text.characters = "@ + json_quote(text) + ";\nreturn { id: sticky.id, x: sticky.x, y: sticky.y };"@ + "\n})()"@;
        assert(wrap_async_js("const sticky = figma.createSticky();\nsticky.x = "@ + x + "; sticky.y = "@ + y + ";\n"@ + fill + "\nawait figma.loadFontAsync({ family: 'Inter', style: 'Medium' });\nsticky.text.characters = "@ + json_quote(text) + ";\nreturn { id: sticky.id, x: sticky.x, y: sticky.y };"@) =~= a + p + c);
        lemma_contains_mid(a, p, c);
    }
    assert(contains_text(wrap_async_js("const sticky = figma.createSticky();\nsticky.x = "@ + x + "; sticky.y = "@ + y + ";\n"@ + fill + "\nawait figma.loadFontAsync({ family: 'Inter', style: 'Medium' });\nsticky.text.characters = "@ + json_quote(text) + ";\nreturn { id: sticky.id, x: sticky.x, y: sticky.y };"@), "sticky.text.characters = "@ + json_quote(text) + ";"@)) by {
        reveal_strlit("\nawait figma.loadFontAsync({ family: 'Inter', style: 'Medium' });\n");
        reveal_strlit("\nawait figma.loadFontAsync({ family: 'Inter', style: 'Medium' });\nsticky.text.characters = ");
        reveal_strlit("\nreturn { id: sticky.id, x: sticky.x, y: sticky.y };");
        reveal_strlit("\n})()");
        reveal_strlit("(async () => {\n");
        reveal_strlit(";");
        reveal_strlit(";\n");
        reveal_strlit(";\nreturn { id: sticky.id, x: sticky.x, y: sticky.y };");
        reveal_strlit("; sticky.y = ");
        reveal_strlit("const sticky = figma.createSticky();\nsticky.x = ");
        reveal_strlit("sticky.text.characters = ");
        assert("\nawait figma.loadFontAsync({ family: 'Inter', style: 'Medium' });\nsticky.text.characters = "@ =~= "\nawait figma.loadFontAsync({ family: 'Inter', style: 'Medium' });\n"@ + "sticky.text.characters = "@);
        assert(";\nreturn { id: sticky.id, x: sticky.x, y: sticky.y };"@ =~= ";"@ + "\nreturn { id: sticky.id, x: sticky.x, y: sticky.y };"@);
        let a = "(async () => {\n"@ + "const sticky = figma.createSticky();\nsticky.x = "@ + x + "; sticky.y = "@ + y + ";\n"@ + fill + "\nawait figma.loadFontAsync({ family: 'Inter', style: 'Medium' });\n"@;
        let p = "sticky.text.characters = "@ + json_quote(text) + ";"@;
        let c = "\nreturn { id: sticky.id, x: sticky.x, y: sticky.y };"@ + "\n})()"@;
        assert(wrap_async_js("const sticky = figma.createSticky();\nsticky.x = "@ + x + "; sticky.y = "@ + y + ";\n"@ + fill + "\nawait figma.loadFontAsync({ family: 'Inter', style: 'Medium' });\nsticky.text.characters = "@ + json_quote(text) + ";\nreturn { id: sticky.id, x: sticky.x, y: sticky.y };"@) =~= a + p + c);
        lemma_contains_mid(a, p, c);
    }
}

/// Law: `figjam sticky` puts a sticky holding `text` at `x` across and `y`
/// down.
pub proof fn lemma_figjam_sticky_place_and_text(text: Seq<char>, x: Seq<char>, y: Seq<char>, color: Option<Seq<char>>)
    ensures
        contains_text(figjam_sticky_js(text, x, y, color), "sticky.x = "@ + x + ";"@),
        contains_text(figjam_sticky_js(text, x, y, color), "sticky.y = "@ + y + ";"@),
        contains_text(figjam_sticky_js(text, x, y, color), "sticky.text.characters = "@ + json_quote(text) + ";"@),
{
    let fill = match color {
        Some(c) => match hex_color(c) {
            Some((r, g, b)) => "sticky.fills = [{ type: 'SOLID', color: { r: "@ + channel_text(r) + ", g: "@ + channel_text(g) + ", b: "@ + channel_text(b) + " } }];"@,
            None => Seq::empty(),
        },
        None => Seq::empty(),
    };
    lemma_sticky_layout(text, x, y, fill);
}

/// The statements of the script built from these pieces.
proof fn lemma_duplicate_one_layout(id: Seq<char>, offset: Seq<char>)
    ensures
        contains_text(wrap_async_js("const n = await figma.getNodeByIdAsync("@ + json_quote(id) + "); if (!n) return 'Node not found'; const c = n.clone(); c.x += "@ + offset + "; c.y += "@ + offset + "; figma.currentPage.selection = [c]; return { id: c.id };"@), "c.x += "@ + offset + ";"@),
        contains_text(wrap_async_js("const n = await figma.getNodeByIdAsync("@ + json_quote(id) + "); if (!n) return 'Node not found'; const c = n.clone(); c.x += "@ + offset + "; c.y += "@ + offset + "; figma.currentPage.selection = [c]; return { id: c.id };"@), "c.y += "@ + offset + ";"@),
{
    assert(contains_text(wrap_async_js("const n = await figma.getNodeByIdAsync("@ + json_quote(id) + "); if (!n) return 'Node not found'; const c = n.clone(); c.x += "@ + offset + "; c.y += "@ + offset + "; figma.currentPage.selection = [c]; return { id: c.id };"@), "c.x += "@ + offset + ";"@)) by {
        reveal_strlit("\n})()");
        reveal_strlit(" c.y += ");
        reveal_strlit("(async () => {\n");
        reveal_strlit("); if (!n) return 'Node not found'; const c = n.clone(); ");
        reveal_strlit("); if (!n) return 'Node not found'; const c = n.clone(); c.x += ");
        reveal_strlit(";");
        reveal_strlit("; c.y += ");
        reveal_strlit("; figma.currentPage.selection = [c]; return { id: c.id };");
        reveal_strlit("c.x += ");
        reveal_strlit("const n = await figma.getNodeByIdAsync(");
        assert("); if (!n) return 'Node not found'; const c = n.clone(); c.x += "@ =~= "); if (!n) return 'Node not found'; const c = n.clone(); "@ + "c.x += "@);
        assert("; c.y += "@ =~= ";"@ + " c.y += "@);
        let a = "(async () => {\n"@ + "const n = await figma.getNodeByIdAsync("@ + json_quote(id) + "); if (!n) return 'Node not found'; const c = n.clone(); "@;
        let p = "c.x += "@ + offset + ";"@;
        let c = " c.y += "@ + offset + "; figma.currentPage.selection = [c]; return { id: c.id };"@ + "\n})()"@;
        assert(wrap_async_js("const n = await figma.getNodeByIdAsync("@ + json_quote(id) + "); if (!n) return 'Node not found'; const c = n.clone(); c.x += "@ + offset + "; c.y += "@ + offset + "; figma.currentPage.selection = [c]; return { id: c.id };"@) =~= a + p + c);
        lemma_contains_mid(a, p, c);
    }
    assert(contains_text(wrap_async_js("const n = await figma.getNodeByIdAsync("@ + json_quote(id) + "); if (!n) return 'Node not found'; const c = n.clone(); c.x += "@ + offset + "; c.y += "@ + offset + "; figma.currentPage.selection = [c]; return { id: c.id };"@), "c.y += "@ + offset + ";"@)) by {
        reveal_strlit("\n})()");
        reveal_strlit(" figma.currentPage.selection = [c]; return { id: c.id };");
        reveal_strlit("(async () => {\n");
        reveal_strlit("); if (!n) return 'Node not found'; const c = n.clone(); c.x += ");
        reveal_strlit(";");
        reveal_strlit("; ");
        reveal_strlit("; c.y += ");
        reveal_strlit("; figma.currentPage.selection = [c]; return { id: c.id };");
        reveal_strlit("c.y += ");
        reveal_strlit("const n = await figma.getNodeByIdAsync(");
        assert("; c.y += "@ =~= "; "@ + "c.y += "@);
        assert("; figma.currentPage.selection = [c]; return { id: c.id };"@ =~= ";"@ + " figma.currentPage.selection = [c]; return { id: c.id };"@);
        let a = "(async () => {\n"@ + "const n = await figma.getNodeByIdAsync("@ + json_quote(id) + "); if (!n) return 'Node not found'; const c = n.clone(); c.x += "@ + offset + "; "@;
        let p = "c.y += "@ + offset + ";"@;
        let c = " figma.currentPage.selection = [c]; return { id: c.id };"@ + "\n})()"@;
        assert(wrap_async_js("const n = await figma.getNodeByIdAsync("@ + json_quote(id) + "); if (!n) return 'Node not found'; const c = n.clone(); c.x += "@ + offset + "; c.y += "@ + offset + "; figma.currentPage.selection = [c]; return { id: c.id };"@) =~= a + p + c);
        lemma_contains_mid(a, p, c);
    }
}

/// The statements of the script built from these pieces.
proof fn lemma_duplicate_sel_layout(offset: Seq<char>)
    ensures
        contains_text(wrap_async_js("const sel = figma.currentPage.selection; if (sel.length === 0) return 'No selection'; const clones = sel.map(n => { const c = n.clone(); c.x += "@ + offset + "; c.y += "@ + offset + "; return c; }); figma.currentPage.selection = clones; return 'Duplicated ' + clones.length + ' element(s)';"@), "c.x += "@ + offset + ";"@),
        contains_text(wrap_async_js("const sel = figma.currentPage.selection; if (sel.length === 0) return 'No selection'; const clones = sel.map(n => { const c = n.clone(); c.x += "@ + offset + "; c.y += "@ + offset + "; return c; }); figma.currentPage.selection = clones; return 'Duplicated ' + clones.length + ' element(s)';"@), "c.y += "@ + offset + ";"@),
{
    assert(contains_text(wrap_async_js("const sel = figma.currentPage.selection; if (sel.length === 0) return 'No selection'; const clones = sel.map(n => { const c = n.clone(); c.x += "@ + offset + "; c.y += "@ + offset + "; return c; }); figma.currentPage.selection = clones; return 'Duplicated ' + clones.length + ' element(s)';"@), "c.x += "@ + offset + ";"@)) by {
        reveal_strlit("\n})()");
        reveal_strlit(" c.y += ");
        reveal_strlit("(async () => {\n");
        reveal_strlit(";");
        reveal_strlit("; c.y += ");
        reveal_strlit("; return c; }); figma.currentPage.selection = clones; return 'Duplicated ' + clones.length + ' element(s)';");
        reveal_strlit("c.x += ");
        reveal_strlit("const sel = figma.currentPage.selection; if (sel.length === 0) return 'No selection'; const clones = sel.map(n => { const c = n.clone(); ");
        reveal_strlit("const sel = figma.currentPage.selection; if (sel.length === 0) return 'No selection'; const clones = sel.map(n => { const c = n.clone(); c.x += ");
        assert("const sel = figma.currentPage.selection; if (sel.length === 0) return 'No selection'; const clones = sel.map(n => { const c = n.clone(); c.x += "@ =~= "const sel = figma.currentPage.selection; if (sel.length === 0) return 'No selection'; const clones = sel.map(n => { const c = n.clone(); "@ + "c.x += "@);
        assert("; c.y += "@ =~= ";"@ + " c.y += "@);
        let a = "(async () => {\n"@ + "const sel = figma.currentPage.selection; if (sel.length === 0) return 'No selection'; const clones = sel.map(n => { const c = n.clone(); "@;
        let p = "c.x += "@ + offset + ";"@;
        let c = " c.y += "@ + offset + "; return c; }); figma.currentPage.selection = clones; return 'Duplicated ' + clones.length + ' element(s)';"@ + "\n})()"@;
        assert(wrap_async_js("const sel = figma.currentPage.selection; if (sel.length === 0) return 'No selection'; const clones = sel.map(n => { const c = n.clone(); c.x += "@ + offset + "; c.y += "@ + offset + "; return c; }); figma.currentPage.selection = clones; return 'Duplicated ' + clones.length + ' element(s)';"@) =~= a + p + c);
        lemma_contains_mid(a, p, c);
    }
    assert(contains_text(wrap_async_js("const sel = figma.currentPage.selection; if (sel.length === 0) return 'No selection'; const clones = sel.map(n => { const c = n.clone(); c.x += "@ + offset + "; c.y += "@ + offset + "; return c; }); figma.currentPage.selection = clones; return 'Duplicated ' + clones.length + ' element(s)';"@), "c.y += "@ + offset + ";"@)) by {
        reveal_strlit("\n})()");
        reveal_strlit(" return c; }); figma.currentPage.selection = clones; return 'Duplicated ' + clones.length + ' element(s)';");
        reveal_strlit("(async () => {\n");
        reveal_strlit(";");
        reveal_strlit("; ");
        reveal_strlit("; c.y += ");
        reveal_strlit("; return c; }); figma.currentPage.selection = clones; return 'Duplicated ' + clones.length + ' element(s)';");
        reveal_strlit("c.y += ");
        reveal_strlit("const sel = figma.currentPage.selection; if (sel.length === 0) return 'No selection'; const clones = sel.map(n => { const c = n.clone(); c.x += ");
        assert("; c.y += "@ =~= "; "@ + "c.y += "@);
        assert("; return c; }); figma.currentPage.selection = clones; return 'Duplicated ' + clones.length + ' element(s)';"@ =~= ";"@ + " return c; }); figma.currentPage.selection = clones; return 'Duplicated ' + clones.length + ' element(s)';"@);
        let a = "(async () => {\n"@ + "const sel = figma.currentPage.selection; if (sel.length === 0) return 'No selection'; const clones = sel.map(n => { const c = n.clone(); c.x += "@ + offset + "; "@;
        let p = "c.y += "@ + offset + ";"@;
        let c = " return c; }); figma.currentPage.selection = clones; return 'Duplicated ' + clones.length + ' element(s)';"@ + "\n})()"@;
        assert(wrap_async_js("const sel = figma.currentPage.selection; if (sel.length === 0) return 'No selection'; const clones = sel.map(n => { const c = n.clone(); c.x += "@ + offset + "; c.y += "@ + offset + "; return c; }); figma.currentPage.selection = clones; return 'Duplicated ' + clones.length + ' element(s)';"@) =~= a + p + c);
        lemma_contains_mid(a, p, c);
    }
}

/// Law: `duplicate` moves each copy by `offset` both across and down.
pub proof fn lemma_duplicate_offsets_copy(node_id: Option<Seq<char>>, offset: Seq<char>)
    ensures
        contains_text(duplicate_js(node_id, offset), "c.x += "@ + offset + ";"@),
        contains_text(duplicate_js(node_id, offset), "c.y += "@ + offset + ";"@),
{
    match node_id {
        Some(id) => lemma_duplicate_one_layout(id, offset),
        None => lemma_duplicate_sel_layout(offset),
    }
}

/// The statements of the script built from these pieces.
#[verifier::spinoff_prover]
#[verifier::rlimit(60)]
proof fn lemma_text_layout(vars: Seq<char>, pos: Seq<char>, fq: Seq<char>, sq: Seq<char>, cq: Seq<char>, size: Seq<char>, fill: Seq<char>, y: Seq<char>, wid: Seq<char>)
    ensures
        contains_text(wrap_async_js(vars + pos + "\nawait figma.loadFontAsync({ family: "@ + fq + ", style: "@ + sq + " });\nconst text = figma.createText();\ntext.fontName = { family: "@ + fq + ", style: "@ + sq + " };\ntext.characters = "@ + cq + ";\ntext.fontSize = "@ + size + ";\n"@ + fill + "\ntext.x = smartX;\ntext.y = "@ + y + ";\n"@ + wid + "\nfigma.currentPage.selection = [text];\nreturn { id: text.id, name: text.name };"@), "text.characters = "@ + cq + ";"@),
        contains_text(wrap_async_js(vars + pos + "\nawait figma.loadFontAsync({ family: "@ + fq + ", style: "@ + sq + " });\nconst text = figma.createText();\ntext.fontName = { family: "@ + fq + ", style: "@ + sq + " };\ntext.characters = "@ + cq + ";\ntext.fontSize = "@ + size + ";\n"@ + fill + "\ntext.x = smartX;\ntext.y = "@ + y + ";\n"@ + wid + "\nfigma.currentPage.selection = [text];\nreturn { id: text.id, name: text.name };"@), "text.fontSize = "@ + size + ";"@),
        contains_text(wrap_async_js(vars + pos + "\nawait figma.loadFontAsync({ family: "@ + fq + ", style: "@ + sq + " });\nconst text = figma.createText();\ntext.fontName = { family: "@ + fq + ", style: "@ + sq + " };\ntext.characters = "@ + cq + ";\ntext.fontSize = "@ + size + ";\n"@ + fill + "\ntext.x = smartX;\ntext.y = "@ + y + ";\n"@ + wid + "\nfigma.currentPage.selection = [text];\nreturn { id: text.id, name: text.name };"@), "text.y = "@ + y + ";"@),
{
    assert(contains_text(wrap_async_js(vars + pos + "\nawait figma.loadFontAsync({ family: "@ + fq + ", style: "@ + sq + " });\nconst text = figma.createText();\ntext.fontName = { family: "@ + fq + ", style: "@ + sq + " };\ntext.characters = "@ + cq + ";\ntext.fontSize = "@ + size + ";\n"@ + fill + "\ntext.x = smartX;\ntext.y = "@ + y + ";\n"@ + wid + "\nfigma.currentPage.selection = [text];\nreturn { id: text.id, name: text.name };"@), "text.characters = "@ + cq + ";"@)) by {
        reveal_strlit("\nawait figma.loadFontAsync({ family: ");
        reveal_strlit("\nfigma.currentPage.selection = [text];\nreturn { id: text.id, name: text.name };");
        reveal_strlit("\ntext.fontSize = ");
        reveal_strlit("\ntext.x = smartX;\ntext.y = ");
        reveal_strlit("\n})()");
        reveal_strlit(" });\nconst text = figma.createText();\ntext.fontName = { family: ");
        reveal_strlit(" };\n");
        reveal_strlit(" };\ntext.characters = ");
        reveal_strlit("(async () => {\n");
        reveal_strlit(", style: ");
        reveal_strlit(";");
        reveal_strlit(";\n");
        reveal_strlit(";\ntext.fontSize = ");
        reveal_strlit("text.characters = ");
        assert(" };\ntext.characters = "@ =~= " };\n"@ + "text.characters = "@);
        assert(";\ntext.fontSize = "@ =~= ";"@ + "\ntext.fontSize = "@);
        let a = "(async () => {\n"@ + vars + pos + "\nawait figma.loadFontAsync({ family: "@ + fq + ", style: "@ + sq + " });\nconst text = figma.createText();\ntext.fontName = { family: "@ + fq + ", style: "@ + sq + " };\n"@;
        let p = "text.characters = "@ + cq + ";"@;
        let c = "\ntext.fontSize = "@ + size + ";\n"@ + fill + "\ntext.x = smartX;\ntext.y = "@ + y + ";\n"@ + wid + "\nfigma.currentPage.selection = [text];\nreturn { id: text.id, name: text.name };"@ + "\n})()"@;
        assert(wrap_async_js(vars + pos + "\nawait figma.loadFontAsync({ family: "@ + fq + ", style: "@ + sq + " });\nconst text = figma.createText();\ntext.fontName = { family: "@ + fq + ", style: "@ + sq + " };\ntext.characters = "@ + cq + ";\ntext.fontSize = "@ + size + ";\n"@ + fill + "\ntext.x = smartX;\ntext.y = "@ + y + ";\n"@ + wid + "\nfigma.currentPage.selection = [text];\nreturn { id: text.id, name: text.name };"@) =~= a + p + c);
        lemma_contains_mid(a, p, c);
    }
    assert(contains_text(wrap_async_js(vars + pos + "\nawait figma.loadFontAsync({ family: "@ + fq + ", style: "@ + sq + " });\nconst text = figma.createText();\ntext.fontName = { family: "@ + fq + ", style: "@ + sq + " };\ntext.characters = "@ + cq + ";\ntext.fontSize = "@ + size + ";\n"@ + fill + "\ntext.x = smartX;\ntext.y = "@ + y + ";\n"@ + wid + "\nfigma.currentPage.selection = [text];\nreturn { id: text.id, name: text.name };"@), "text.fontSize = "@ + size + ";"@)) by {
        reveal_strlit("\n");
        reveal_strlit("\nawait figma.loadFontAsync({ family: ");
        reveal_strlit("\nfigma.currentPage.selection = [text];\nreturn { id: text.id, name: text.name };");
        reveal_strlit("\ntext.x = smartX;\ntext.y = ");
        reveal_strlit("\n})()");
        reveal_strlit(" });\nconst text = figma.createText();\ntext.fontName = { family: ");
        reveal_strlit(" };\ntext.characters = ");
        reveal_strlit("(async () => {\n");
        reveal_strlit(", style: ");
        reveal_strlit(";");
        reveal_strlit(";\n");
        reveal_strlit(";\ntext.fontSize = ");
        reveal_strlit("text.fontSize = ");
        assert(";\ntext.fontSize = "@ =~= ";\n"@ + "text.fontSize = "@);
        assert(";\n"@ =~= ";"@ + "\n"@);
        let a = "(async () => {\n"@ + vars + pos + "\nawait figma.loadFontAsync({ family: "@ + fq + ", style: "@ + sq + " });\nconst text = figma.createText();\ntext.fontName = { family: "@ + fq + ", style: "@ + sq + " };\ntext.characters = "@ + cq + ";\n"@;
        let p = "text.fontSize = "@ + size + ";"@;
        let c = "\n"@ + fill + "\ntext.x = smartX;\ntext.y = "@ + y + ";\n"@ + wid + "\nfigma.currentPage.selection = [text];\nreturn { id: text.id, name: text.name };"@ + "\n})()"@;
        assert(wrap_async_js(vars + pos + "\nawait figma.loadFontAsync({ family: "@ + fq + ", style: "@ + sq + " });\nconst text = figma.createText();\ntext.fontName = { family: "@ + fq + ", style: "@ + sq + " };\ntext.characters = "@ + cq + ";\ntext.fontSize = "@ + size + ";\n"@ + fill + "\ntext.x = smartX;\ntext.y = "@ + y + ";\n"@ + wid + "\nfigma.currentPage.selection = [text];\nreturn { id: text.id, name: text.name };"@) =~= a + p + c);
        lemma_contains_mid(a, p, c);
    }
    assert(contains_text(wrap_async_js(vars + pos + "\nawait figma.loadFontAsync({ family: "@ + fq + ", style: "@ + sq + " });\nconst text = figma.createText();\ntext.fontName = { family: "@ + fq + ", style: "@ + sq + " };\ntext.characters = "@ + cq + ";\ntext.fontSize = "@ + size + ";\n"@ + fill + "\ntext.x = smartX;\ntext.y = "@ + y + ";\n"@ + wid + "\nfigma.currentPage.selection = [text];\nreturn { id: text.id, name: text.name };"@), "text.y = "@ + y + ";"@)) by {
        reveal_strlit("\n");
        reveal_strlit("\nawait figma.loadFontAsync({ family: ");
        reveal_strlit("\nfigma.currentPage.selection = [text];\nreturn { id: text.id, name: text.name };");
        reveal_strlit("\ntext.x = smartX;\n");
        reveal_strlit("\ntext.x = smartX;\ntext.y = ");
        reveal_strlit("\n})()");
        reveal_strlit(" });\nconst text = figma.createText();\ntext.fontName = { family: ");
        reveal_strlit(" };\ntext.characters = ");
        reveal_strlit("(async () => {\n");
        reveal_strlit(", style: ");
        reveal_strlit(";");
        reveal_strlit(";\n");
        reveal_strlit(";\ntext.fontSize = ");
        reveal_strlit("text.y = ");
        assert("\ntext.x = smartX;\ntext.y = "@ =~= "\ntext.x = smartX;\n"@ + "text.y = "@);
        assert(";\n"@ =~= ";"@ + "\n"@);
        let a = "(async () => {\n"@ + vars + pos + "\nawait figma.loadFontAsync({ family: "@ + fq + ", style: "@ + sq + " });\nconst text = figma.createText();\ntext.fontName = { family: "@ + fq + ", style: "@ + sq + " };\ntext.characters = "@ + cq + ";\ntext.fontSize = "@ + size + ";\n"@ + fill + "\ntext.x = smartX;\n"@;
        let p = "text.y = "@ + y + ";"@;
        let c = "\n"@ + wid + "\nfigma.currentPage.selection = [text];\nreturn { id: text.id, name: text.name };"@ + "\n})()"@;
        assert(wrap_async_js(vars + pos + "\nawait figma.loadFontAsync({ family: "@ + fq + ", style: "@ + sq + " });\nconst text = figma.createText();\ntext.fontName = { family: "@ + fq + ", style: "@ + sq + " };\ntext.characters = "@ + cq + ";\ntext.fontSize = "@ + size + ";\n"@ + fill + "\ntext.x = smartX;\ntext.y = "@ + y + ";\n"@ + wid + "\nfigma.currentPage.selection = [text];\nreturn { id: text.id, name: text.name };"@) =~= a + p + c);
        lemma_contains_mid(a, p, c);
    }
}

/// Law: `create text` writes `content` in font size `size` and puts it at
/// `y` down.
#[verifier::spinoff_prover]
pub proof fn lemma_create_text_content_size_place(o: TextOpts)
    ensures
        contains_text(create_text_js(o), "text.characters = "@ + json_quote(o.content@) + ";"@),
        contains_text(create_text_js(o), "text.fontSize = "@ + o.size@ + ";"@),
        contains_text(create_text_js(o), "text.y = "@ + o.y@ + ";"@),
{
    lemma_text_layout(vars_js(is_var_ref_text(o.color@)), smart_x_js(opt_string_text(o.x), o.spacing@), json_quote(o.font@),
        json_quote(font_style_text(lowercased(o.weight@))), json_quote(o.content@), o.size@, fill_js(o.color@, "text"@, "fills"@), o.y@,
        opt_stmt_js(opt_string_text(o.width), "text.resize("@, ", text.height); text.textAutoResize = 'HEIGHT';"@));
}

/// One statement of the script built from these pieces.
#[verifier::spinoff_prover]
proof fn lemma_autolayout_layout_0(vars: Seq<char>, pos: Seq<char>, nq: Seq<char>, y: Seq<char>, mq: Seq<char>, gap: Seq<char>, padding: Seq<char>, fill: Seq<char>, radius: Seq<char>)
    ensures
        contains_text(wrap_async_js(vars + pos + "\nconst frame = figma.createFrame();\nframe.name = "@ + nq + ";\nframe.x = smartX;\nframe.y = "@ + y + ";\nframe.layoutMode = "@ + mq + ";\nframe.primaryAxisSizingMode = 'AUTO';\nframe.counterAxisSizingMode = 'AUTO';\nframe.itemSpacing = "@ + gap + ";\nframe.paddingTop = "@ + padding + "; frame.paddingRight = "@ + padding + "; frame.paddingBottom = "@ + padding + "; frame.paddingLeft = "@ + padding + ";\n"@ + fill + "\n"@ + radius + "\nfigma.currentPage.selection = [frame];\nreturn { id: frame.id, name: frame.name };"@), "frame.y = "@ + y + ";"@),
{
    assert(contains_text(wrap_async_js(vars + pos + "\nconst frame = figma.createFrame();\nframe.name = "@ + nq + ";\nframe.x = smartX;\nframe.y = "@ + y + ";\nframe.layoutMode = "@ + mq + ";\nframe.primaryAxisSizingMode = 'AUTO';\nframe.counterAxisSizingMode = 'AUTO';\nframe.itemSpacing = "@ + gap + ";\nframe.paddingTop = "@ + padding + "; frame.paddingRight = "@ + padding + "; frame.paddingBottom = "@ + padding + "; frame.paddingLeft = "@ + padding + ";\n"@ + fill + "\n"@ + radius + "\nfigma.currentPage.selection = [frame];\nreturn { id: frame.id, name: frame.name };"@), "frame.y = "@ + y + ";"@)) by {
        reveal_strlit("\n");
        reveal_strlit("\nconst frame = figma.createFrame();\nframe.name = ");
        reveal_strlit("\nfigma.currentPage.selection = [frame];\nreturn { id: frame.id, name: frame.name };");
        reveal_strlit("\nframe.layoutMode = ");
        reveal_strlit("\n})()");
        reveal_strlit("(async () => {\n");
        reveal_strlit(";");
        reveal_strlit(";\n");
        reveal_strlit(";\nframe.layoutMode = ");
        reveal_strlit(";\nframe.paddingTop = ");
        reveal_strlit(";\nframe.primaryAxisSizingMode = 'AUTO';\nframe.counterAxisSizingMode = 'AUTO';\nframe.itemSpacing = ");
        reveal_strlit(";\nframe.x = smartX;\n");
        reveal_strlit(";\nframe.x = smartX;\nframe.y = ");
        reveal_strlit("; frame.paddingBottom = ");
        reveal_strlit("; frame.paddingLeft = ");
        reveal_strlit("; frame.paddingRight = ");
        reveal_strlit("frame.y = ");
        assert(";\nframe.x = smartX;\nframe.y = "@ =~= ";\nframe.x = smartX;\n"@ + "frame.y = "@);
        assert(";\nframe.layoutMode = "@ =~= ";"@ + "\nframe.layoutMode = "@);
        let a = "(async () => {\n"@ + vars + pos + "\nconst frame = figma.createFrame();\nframe.name = "@ + nq + ";\nframe.x = smartX;\n"@;
        let p = "frame.y = "@ + y + ";"@;
        let c = "\nframe.layoutMode = "@ + mq + ";\nframe.primaryAxisSizingMode = 'AUTO';\nframe.counterAxisSizingMode = 'AUTO';\nframe.itemSpacing = "@ + gap + ";\nframe.paddingTop = "@ + padding + "; frame.paddingRight = "@ + padding + "; frame.paddingBottom = "@ + padding + "; frame.paddingLeft = "@ + padding + ";\n"@ + fill + "\n"@ + radius + "\nfigma.currentPage.selection = [frame];\nreturn { id: frame.id, name: frame.name };"@ + "\n})()"@;
        assert(wrap_async_js(vars + pos + "\nconst frame = figma.createFrame();\nframe.name = "@ + nq + ";\nframe.x = smartX;\nframe.y = "@ + y + ";\nframe.layoutMode = "@ + mq + ";\nframe.primaryAxisSizingMode = 'AUTO';\nframe.counterAxisSizingMode = 'AUTO';\nframe.itemSpacing = "@ + gap + ";\nframe.paddingTop = "@ + padding + "; frame.paddingRight = "@ + padding + "; frame.paddingBottom = "@ + padding + "; frame.paddingLeft = "@ + padding + ";\n"@ + fill + "\n"@ + radius + "\nfigma.currentPage.selection = [frame];\nreturn { id: frame.id, name: frame.name };"@) =~= a + p + c);
        lemma_contains_mid(a, p, c);
    }
}

/// One statement of the script built from these pieces.
#[verifier::spinoff_prover]
proof fn lemma_autolayout_layout_1(vars: Seq<char>, pos: Seq<char>, nq: Seq<char>, y: Seq<char>, mq: Seq<char>, gap: Seq<char>, padding: Seq<char>, fill: Seq<char>, radius: Seq<char>)
    ensures
        contains_text(wrap_async_js(vars + pos + "\nconst frame = figma.createFrame();\nframe.name = "@ + nq + ";\nframe.x = smartX;\nframe.y = "@ + y + ";\nframe.layoutMode = "@ + mq + ";\nframe.primaryAxisSizingMode = 'AUTO';\nframe.counterAxisSizingMode = 'AUTO';\nframe.itemSpacing = "@ + gap + ";\nframe.paddingTop = "@ + padding + "; frame.paddingRight = "@ + padding + "; frame.paddingBottom = "@ + padding + "; frame.paddingLeft = "@ + padding + ";\n"@ + fill + "\n"@ + radius + "\nfigma.currentPage.selection = [frame];\nreturn { id: frame.id, name: frame.name };"@), "frame.layoutMode = "@ + mq + ";"@),
{
    assert(contains_text(wrap_async_js(vars + pos + "\nconst frame = figma.createFrame();\nframe.name = "@ + nq + ";\nframe.x = smartX;\nframe.y = "@ + y + ";\nframe.layoutMode = "@ + mq + ";\nframe.primaryAxisSizingMode = 'AUTO';\nframe.counterAxisSizingMode = 'AUTO';\nframe.itemSpacing = "@ + gap + ";\nframe.paddingTop = "@ + padding + "; frame.paddingRight = "@ + padding + "; frame.paddingBottom = "@ + padding + "; frame.paddingLeft = "@ + padding + ";\n"@ + fill + "\n"@ + radius + "\nfigma.currentPage.selection = [frame];\nreturn { id: frame.id, name: frame.name };"@), "frame.layoutMode = "@ + mq + ";"@)) by {
        reveal_strlit("\n");
        reveal_strlit("\nconst frame = figma.createFrame();\nframe.name = ");
        reveal_strlit("\nfigma.currentPage.selection = [frame];\nreturn { id: frame.id, name: frame.name };");
        reveal_strlit("\nframe.primaryAxisSizingMode = 'AUTO';\nframe.counterAxisSizingMode = 'AUTO';\nframe.itemSpacing = ");
        reveal_strlit("\n})()");
        reveal_strlit("(async () => {\n");
        reveal_strlit(";");
        reveal_strlit(";\n");
        reveal_strlit(";\nframe.layoutMode = ");
        reveal_strlit(";\nframe.paddingTop = ");
        reveal_strlit(";\nframe.primaryAxisSizingMode = 'AUTO';\nframe.counterAxisSizingMode = 'AUTO';\nframe.itemSpacing = ");
        reveal_strlit(";\nframe.x = smartX;\nframe.y = ");
        reveal_strlit("; frame.paddingBottom = ");
        reveal_strlit("; frame.paddingLeft = ");
        reveal_strlit("; frame.paddingRight = ");
        reveal_strlit("frame.layoutMode = ");
        assert(";\nframe.layoutMode = "@ =~= ";\n"@ + "frame.layoutMode = "@);
        assert(";\nframe.primaryAxisSizingMode = 'AUTO';\nframe.counterAxisSizingMode = 'AUTO';\nframe.itemSpacing = "@ =~= ";"@ + "\nframe.primaryAxisSizingMode = 'AUTO';\nframe.counterAxisSizingMode = 'AUTO';\nframe.itemSpacing = "@);
        let a = "(async () => {\n"@ + vars + pos + "\nconst frame = figma.createFrame();\nframe.name = "@ + nq + ";\nframe.x = smartX;\nframe.y = "@ + y + ";\n"@;
        let p = "frame.layoutMode = "@ + mq + ";"@;
        let c = "\nframe.primaryAxisSizingMode = 'AUTO';\nframe.counterAxisSizingMode = 'AUTO';\nframe.itemSpacing = "@ + gap + ";\nframe.paddingTop = "@ + padding + "; frame.paddingRight = "@ + padding + "; frame.paddingBottom = "@ + padding + "; frame.paddingLeft = "@ + padding + ";\n"@ + fill + "\n"@ + radius + "\nfigma.currentPage.selection = [frame];\nreturn { id: frame.id, name: frame.name };"@ + "\n})()"@;
        assert(wrap_async_js(vars + pos + "\nconst frame = figma.createFrame();\nframe.name = "@ + nq + ";\nframe.x = smartX;\nframe.y = "@ + y + ";\nframe.layoutMode = "@ + mq + ";\nframe.primaryAxisSizingMode = 'AUTO';\nframe.counterAxisSizingMode = 'AUTO';\nframe.itemSpacing = "@ + gap + ";\nframe.paddingTop = "@ + padding + "; frame.paddingRight = "@ + padding + "; frame.paddingBottom = "@ + padding + "; frame.paddingLeft = "@ + padding + ";\n"@ + fill + "\n"@ + radius + "\nfigma.currentPage.selection = [frame];\nreturn { id: frame.id, name: frame.name };"@) =~= a + p + c);
        lemma_contains_mid(a, p, c);
    }
}

/// One statement of the script built from these pieces.
#[verifier::spinoff_prover]
proof fn lemma_autolayout_layout_2(vars: Seq<char>, pos: Seq<char>, nq: Seq<char>, y: Seq<char>, mq: Seq<char>, gap: Seq<char>, padding: Seq<char>, fill: Seq<char>, radius: Seq<char>)
    ensures
        contains_text(wrap_async_js(vars + pos + "\nconst frame = figma.createFrame();\nframe.name = "@ + nq + ";\nframe.x = smartX;\nframe.y = "@ + y + ";\nframe.layoutMode = "@ + mq + ";\nframe.primaryAxisSizingMode = 'AUTO';\nframe.counterAxisSizingMode = 'AUTO';\nframe.itemSpacing = "@ + gap + ";\nframe.paddingTop = "@ + padding + "; frame.paddingRight = "@ + padding + "; frame.paddingBottom = "@ + padding + "; frame.paddingLeft = "@ + padding + ";\n"@ + fill + "\n"@ + radius + "\nfigma.currentPage.selection = [frame];\nreturn { id: frame.id, name: frame.name };"@), "frame.itemSpacing = "@ + gap + ";"@),
{
    assert(contains_text(wrap_async_js(vars + pos + "\nconst frame = figma.createFrame();\nframe.name = "@ + nq + ";\nframe.x = smartX;\nframe.y = "@ + y + ";\nframe.layoutMode = "@ + mq + ";\nframe.primaryAxisSizingMode = 'AUTO';\nframe.counterAxisSizingMode = 'AUTO';\nframe.itemSpacing = "@ + gap + ";\nframe.paddingTop = "@ + padding + "; frame.paddingRight = "@ + padding + "; frame.paddingBottom = "@ + padding + "; frame.paddingLeft = "@ + padding + ";\n"@ + fill + "\n"@ + radius + "\nfigma.currentPage.selection = [frame];\nreturn { id: frame.id, name: frame.name };"@), "frame.itemSpacing = "@ + gap + ";"@)) by {
        reveal_strlit("\n");
        reveal_strlit("\nconst frame = figma.createFrame();\nframe.name = ");
        reveal_strlit("\nfigma.currentPage.selection = [frame];\nreturn { id: frame.id, name: frame.name };");
        reveal_strlit("\nframe.paddingTop = ");
        reveal_strlit("\n})()");
        reveal_strlit("(async () => {\n");
        reveal_strlit(";");
        reveal_strlit(";\n");
        reveal_strlit(";\nframe.layoutMode = ");
        reveal_strlit(";\nframe.paddingTop = ");
        reveal_strlit(";\nframe.primaryAxisSizingMode = 'AUTO';\nframe.counterAxisSizingMode = 'AUTO';\n");
        reveal_strlit(";\nframe.primaryAxisSizingMode = 'AUTO';\nframe.counterAxisSizingMode = 'AUTO';\nframe.itemSpacing = ");
        reveal_strlit(";\nframe.x = smartX;\nframe.y = ");
        reveal_strlit("; frame.paddingBottom = ");
        reveal_strlit("; frame.paddingLeft = ");
        reveal_strlit("; frame.paddingRight = ");
        reveal_strlit("frame.itemSpacing = ");
        assert(";\nframe.primaryAxisSizingMode = 'AUTO';\nframe.counterAxisSizingMode = 'AUTO';\nframe.itemSpacing = "@ =~= ";\nframe.primaryAxisSizingMode = 'AUTO';\nframe.counterAxisSizingMode = 'AUTO';\n"@ + "frame.itemSpacing = "@);
        assert(";\nframe.paddingTop = "@ =~= ";"@ + "\nframe.paddingTop = "@);
        let a = "(async () => {\n"@ + vars + pos + "\nconst frame = figma.createFrame();\nframe.name = "@ + nq + ";\nframe.x = smartX;\nframe.y = "@ + y + ";\nframe.layoutMode = "@ + mq + ";\nframe.primaryAxisSizingMode = 'AUTO';\nframe.counterAxisSizingMode = 'AUTO';\n"@;
        let p = "frame.itemSpacing = "@ + gap + ";"@;
        let c = "\nframe.paddingTop = "@ + padding + "; frame.paddingRight = "@ + padding + "; frame.paddingBottom = "@ + padding + "; frame.paddingLeft = "@ + padding + ";\n"@ + fill + "\n"@ + radius + "\nfigma.currentPage.selection = [frame];\nreturn { id: frame.id, name: frame.name };"@ + "\n})()"@;
        assert(wrap_async_js(vars + pos + "\nconst frame = figma.createFrame();\nframe.name = "@ + nq + ";\nframe.x = smartX;\nframe.y = "@ + y + ";\nframe.layoutMode = "@ + mq + ";\nframe.primaryAxisSizingMode = 'AUTO';\nframe.counterAxisSizingMode = 'AUTO';\nframe.itemSpacing = "@ + gap + ";\nframe.paddingTop = "@ + padding + "; frame.paddingRight = "@ + padding + "; frame.paddingBottom = "@ + padding + "; frame.paddingLeft = "@ + padding + ";\n"@ + fill + "\n"@ + radius + "\nfigma.currentPage.selection = [frame];\nreturn { id: frame.id, name: frame.name };"@) =~= a + p + c);
        lemma_contains_mid(a, p, c);
    }
}

/// One statement of the script built from these pieces.
#[verifier::spinoff_prover]
proof fn lemma_autolayout_layout_3(vars: Seq<char>, pos: Seq<char>, nq: Seq<char>, y: Seq<char>, mq: Seq<char>, gap: Seq<char>, padding: Seq<char>, fill: Seq<char>, radius: Seq<char>)
    ensures
        contains_text(wrap_async_js(vars + pos + "\nconst frame = figma.createFrame();\nframe.name = "@ + nq + ";\nframe.x = smartX;\nframe.y = "@ + y + ";\nframe.layoutMode = "@ + mq + ";\nframe.primaryAxisSizingMode = 'AUTO';\nframe.counterAxisSizingMode = 'AUTO';\nframe.itemSpacing = "@ + gap + ";\nframe.paddingTop = "@ + padding + "; frame.paddingRight = "@ + padding + "; frame.paddingBottom = "@ + padding + "; frame.paddingLeft = "@ + padding + ";\n"@ + fill + "\n"@ + radius + "\nfigma.currentPage.selection = [frame];\nreturn { id: frame.id, name: frame.name };"@), "frame.paddingTop = "@ + padding + ";"@),
{
    assert(contains_text(wrap_async_js(vars + pos + "\nconst frame = figma.createFrame();\nframe.name = "@ + nq + ";\nframe.x = smartX;\nframe.y = "@ + y + ";\nframe.layoutMode = "@ + mq + ";\nframe.primaryAxisSizingMode = 'AUTO';\nframe.counterAxisSizingMode = 'AUTO';\nframe.itemSpacing = "@ + gap + ";\nframe.paddingTop = "@ + padding + "; frame.paddingRight = "@ + padding + "; frame.paddingBottom = "@ + padding + "; frame.paddingLeft = "@ + padding + ";\n"@ + fill + "\n"@ + radius + "\nfigma.currentPage.selection = [frame];\nreturn { id: frame.id, name: frame.name };"@), "frame.paddingTop = "@ + padding + ";"@)) by {
        reveal_strlit("\n");
        reveal_strlit("\nconst frame = figma.createFrame();\nframe.name = ");
        reveal_strlit("\nfigma.currentPage.selection = [frame];\nreturn { id: frame.id, name: frame.name };");
        reveal_strlit("\n})()");
        reveal_strlit(" frame.paddingRight = ");
        reveal_strlit("(async () => {\n");
        reveal_strlit(";");
        reveal_strlit(";\n");
        reveal_strlit(";\nframe.layoutMode = ");
        reveal_strlit(";\nframe.paddingTop = ");
        reveal_strlit(";\nframe.primaryAxisSizingMode = 'AUTO';\nframe.counterAxisSizingMode = 'AUTO';\nframe.itemSpacing = ");
        reveal_strlit(";\nframe.x = smartX;\nframe.y = ");
        reveal_strlit("; frame.paddingBottom = ");
        reveal_strlit("; frame.paddingLeft = ");
        reveal_strlit("; frame.paddingRight = ");
        reveal_strlit("frame.paddingTop = ");
        assert(";\nframe.paddingTop = "@ =~= ";\n"@ + "frame.paddingTop = "@);
        assert("; frame.paddingRight = "@ =~= ";"@ + " frame.paddingRight = "@);
        let a = "(async () => {\n"@ + vars + pos + "\nconst frame = figma.createFrame();\nframe.name = "@ + nq + ";\nframe.x = smartX;\nframe.y = "@ + y + ";\nframe.layoutMode = "@ + mq + ";\nframe.primaryAxisSizingMode = 'AUTO';\nframe.counterAxisSizingMode = 'AUTO';\nframe.itemSpacing = "@ + gap + ";\n"@;
        let p = "frame.paddingTop = "@ + padding + ";"@;
        let c = " frame.paddingRight = "@ + padding + "; frame.paddingBottom = "@ + padding + "; frame.paddingLeft = "@ + padding + ";\n"@ + fill + "\n"@ + radius + "\nfigma.currentPage.selection = [frame];\nreturn { id: frame.id, name: frame.name };"@ + "\n})()"@;
        assert(wrap_async_js(vars + pos + "\nconst frame = figma.createFrame();\nframe.name = "@ + nq + ";\nframe.x = smartX;\nframe.y = "@ + y + ";\nframe.layoutMode = "@ + mq + ";\nframe.primaryAxisSizingMode = 'AUTO';\nframe.counterAxisSizingMode = 'AUTO';\nframe.itemSpacing = "@ + gap + ";\nframe.paddingTop = "@ + padding + "; frame.paddingRight = "@ + padding + "; frame.paddingBottom = "@ + padding + "; frame.paddingLeft = "@ + padding + ";\n"@ + fill + "\n"@ + radius + "\nfigma.currentPage.selection = [frame];\nreturn { id: frame.id, name: frame.name };"@) =~= a + p + c);
        lemma_contains_mid(a, p, c);
    }
}

/// One statement of the script built from these pieces.
#[verifier::spinoff_prover]
proof fn lemma_autolayout_layout_4(vars: Seq<char>, pos: Seq<char>, nq: Seq<char>, y: Seq<char>, mq: Seq<char>, gap: Seq<char>, padding: Seq<char>, fill: Seq<char>, radius: Seq<char>)
    ensures
        contains_text(wrap_async_js(vars + pos + "\nconst frame = figma.createFrame();\nframe.name = "@ + nq + ";\nframe.x = smartX;\nframe.y = "@ + y + ";\nframe.layoutMode = "@ + mq + ";\nframe.primaryAxisSizingMode = 'AUTO';\nframe.counterAxisSizingMode = 'AUTO';\nframe.itemSpacing = "@ + gap + ";\nframe.paddingTop = "@ + padding + "; frame.paddingRight = "@ + padding + "; frame.paddingBottom = "@ + padding + "; frame.paddingLeft = "@ + padding + ";\n"@ + fill + "\n"@ + radius + "\nfigma.currentPage.selection = [frame];\nreturn { id: frame.id, name: frame.name };"@), "frame.paddingRight = "@ + padding + ";"@),
{
    assert(contains_text(wrap_async_js(vars + pos + "\nconst frame = figma.createFrame();\nframe.name = "@ + nq + ";\nframe.x = smartX;\nframe.y = "@ + y + ";\nframe.layoutMode = "@ + mq + ";\nframe.primaryAxisSizingMode = 'AUTO';\nframe.counterAxisSizingMode = 'AUTO';\nframe.itemSpacing = "@ + gap + ";\nframe.paddingTop = "@ + padding + "; frame.paddingRight = "@ + padding + "; frame.paddingBottom = "@ + padding + "; frame.paddingLeft = "@ + padding + ";\n"@ + fill + "\n"@ + radius + "\nfigma.currentPage.selection = [frame];\nreturn { id: frame.id, name: frame.name };"@), "frame.paddingRight = "@ + padding + ";"@)) by {
        reveal_strlit("\n");
        reveal_strlit("\nconst frame = figma.createFrame();\nframe.name = ");
        reveal_strlit("\nfigma.currentPage.selection = [frame];\nreturn { id: frame.id, name: frame.name };");
        reveal_strlit("\n})()");
        reveal_strlit(" frame.paddingBottom = ");
        reveal_strlit("(async () => {\n");
        reveal_strlit(";");
        reveal_strlit(";\n");
        reveal_strlit(";\nframe.layoutMode = ");
        reveal_strlit(";\nframe.paddingTop = ");
        reveal_strlit(";\nframe.primaryAxisSizingMode = 'AUTO';\nframe.counterAxisSizingMode = 'AUTO';\nframe.itemSpacing = ");
        reveal_strlit(";\nframe.x = smartX;\nframe.y = ");
        reveal_strlit("; ");
        reveal_strlit("; frame.paddingBottom = ");
        reveal_strlit("; frame.paddingLeft = ");
        reveal_strlit("; frame.paddingRight = ");
        reveal_strlit("frame.paddingRight = ");
        assert("; frame.paddingRight = "@ =~= "; "@ + "frame.paddingRight = "@);
        assert("; frame.paddingBottom = "@ =~= ";"@ + " frame.paddingBottom = "@);
        let a = "(async () => {\n"@ + vars + pos + "\nconst frame = figma.createFrame();\nframe.name = "@ + nq + ";\nframe.x = smartX;\nframe.y = "@ + y + ";\nframe.layoutMode = "@ + mq + ";\nframe.primaryAxisSizingMode = 'AUTO';\nframe.counterAxisSizingMode = 'AUTO';\nframe.itemSpacing = "@ + gap + ";\nframe.paddingTop = "@ + padding + "; "@;
        let p = "frame.paddingRight = "@ + padding + ";"@;
        let c = " frame.paddingBottom = "@ + padding + "; frame.paddingLeft = "@ + padding + ";\n"@ + fill + "\n"@ + radius + "\nfigma.currentPage.selection = [frame];\nreturn { id: frame.id, name: frame.name };"@ + "\n})()"@;
        assert(wrap_async_js(vars + pos + "\nconst frame = figma.createFrame();\nframe.name = "@ + nq + ";\nframe.x = smartX;\nframe.y = "@ + y + ";\nframe.layoutMode = "@ + mq + ";\nframe.primaryAxisSizingMode = 'AUTO';\nframe.counterAxisSizingMode = 'AUTO';\nframe.itemSpacing = "@ + gap + ";\nframe.paddingTop = "@ + padding + "; frame.paddingRight = "@ + padding + "; frame.paddingBottom = "@ + padding + "; frame.paddingLeft = "@ + padding + ";\n"@ + fill + "\n"@ + radius + "\nfigma.currentPage.selection = [frame];\nreturn { id: frame.id, name: frame.name };"@) =~= a + p + c);
        lemma_contains_mid(a, p, c);
    }
}

/// One statement of the script built from these pieces.
#[verifier::spinoff_prover]
proof fn lemma_autolayout_layout_5(vars: Seq<char>, pos: Seq<char>, nq: Seq<char>, y: Seq<char>, mq: Seq<char>, gap: Seq<char>, padding: Seq<char>, fill: Seq<char>, radius: Seq<char>)
    ensures
        contains_text(wrap_async_js(vars + pos + "\nconst frame = figma.createFrame();\nframe.name = "@ + nq + ";\nframe.x = smartX;\nframe.y = "@ + y + ";\nframe.layoutMode = "@ + mq + ";\nframe.primaryAxisSizingMode = 'AUTO';\nframe.counterAxisSizingMode = 'AUTO';\nframe.itemSpacing = "@ + gap + ";\nframe.paddingTop = "@ + padding + "; frame.paddingRight = "@ + padding + "; frame.paddingBottom = "@ + padding + "; frame.paddingLeft = "@ + padding + ";\n"@ + fill + "\n"@ + radius + "\nfigma.currentPage.selection = [frame];\nreturn { id: frame.id, name: frame.name };"@), "frame.paddingBottom = "@ + padding + ";"@),
{
    assert(contains_text(wrap_async_js(vars + pos + "\nconst frame = figma.createFrame();\nframe.name = "@ + nq + ";\nframe.x = smartX;\nframe.y = "@ + y + ";\nframe.layoutMode = "@ + mq + ";\nframe.primaryAxisSizingMode = 'AUTO';\nframe.counterAxisSizingMode = 'AUTO';\nframe.itemSpacing = "@ + gap + ";\nframe.paddingTop = "@ + padding + "; frame.paddingRight = "@ + padding + "; frame.paddingBottom = "@ + padding + "; frame.paddingLeft = "@ + padding + ";\n"@ + fill + "\n"@ + radius + "\nfigma.currentPage.selection = [frame];\nreturn { id: frame.id, name: frame.name };"@), "frame.paddingBottom = "@ + padding + ";"@)) by {
        reveal_strlit("\n");
        reveal_strlit("\nconst frame = figma.createFrame();\nframe.name = ");
        reveal_strlit("\nfigma.currentPage.selection = [frame];\nreturn { id: frame.id, name: frame.name };");
        reveal_strlit("\n})()");
        reveal_strlit(" frame.paddingLeft = ");
        reveal_strlit("(async () => {\n");
        reveal_strlit(";");
        reveal_strlit(";\n");
        reveal_strlit(";\nframe.layoutMode = ");
        reveal_strlit(";\nframe.paddingTop = ");
        reveal_strlit(";\nframe.primaryAxisSizingMode = 'AUTO';\nframe.counterAxisSizingMode = 'AUTO';\nframe.itemSpacing = ");
        reveal_strlit(";\nframe.x = smartX;\nframe.y = ");
        reveal_strlit("; ");
        reveal_strlit("; frame.paddingBottom = ");
        reveal_strlit("; frame.paddingLeft = ");
        reveal_strlit("; frame.paddingRight = ");
        reveal_strlit("frame.paddingBottom = ");
        assert("; frame.paddingBottom = "@ =~= "; "@ + "frame.paddingBottom = "@);
        assert("; frame.paddingLeft = "@ =~= ";"@ + " frame.paddingLeft = "@);
        let a = "(async () => {\n"@ + vars + pos + "\nconst frame = figma.createFrame();\nframe.name = "@ + nq + ";\nframe.x = smartX;\nframe.y = "@ + y + ";\nframe.layoutMode = "@ + mq + ";\nframe.primaryAxisSizingMode = 'AUTO';\nframe.counterAxisSizingMode = 'AUTO';\nframe.itemSpacing = "@ + gap + ";\nframe.paddingTop = "@ + padding + "; frame.paddingRight = "@ + padding + "; "@;
        let p = "frame.paddingBottom = "@ + padding + ";"@;
        let c = " frame.paddingLeft = "@ + padding + ";\n"@ + fill + "\n"@ + radius + "\nfigma.currentPage.selection = [frame];\nreturn { id: frame.id, name: frame.name };"@ + "\n})()"@;
        assert(wrap_async_js(vars + pos + "\nconst frame = figma.createFrame();\nframe.name = "@ + nq + ";\nframe.x = smartX;\nframe.y = "@ + y + ";\nframe.layoutMode = "@ + mq + ";\nframe.primaryAxisSizingMode = 'AUTO';\nframe.counterAxisSizingMode = 'AUTO';\nframe.itemSpacing = "@ + gap + ";\nframe.paddingTop = "@ + padding + "; frame.paddingRight = "@ + padding + "; frame.paddingBottom = "@ + padding + "; frame.paddingLeft = "@ + padding + ";\n"@ + fill + "\n"@ + radius + "\nfigma.currentPage.selection = [frame];\nreturn { id: frame.id, name: frame.name };"@) =~= a + p + c);
        lemma_contains_mid(a, p, c);
    }
}

/// One statement of the script built from these pieces.
#[verifier::spinoff_prover]
proof fn lemma_autolayout_layout_6(vars: Seq<char>, pos: Seq<char>, nq: Seq<char>, y: Seq<char>, mq: Seq<char>, gap: Seq<char>, padding: Seq<char>, fill: Seq<char>, radius: Seq<char>)
    ensures
        contains_text(wrap_async_js(vars + pos + "\nconst frame = figma.createFrame();\nframe.name = "@ + nq + ";\nframe.x = smartX;\nframe.y = "@ + y + ";\nframe.layoutMode = "@ + mq + ";\nframe.primaryAxisSizingMode = 'AUTO';\nframe.counterAxisSizingMode = 'AUTO';\nframe.itemSpacing = "@ + gap + ";\nframe.paddingTop = "@ + padding + "; frame.paddingRight = "@ + padding + "; frame.paddingBottom = "@ + padding + "; frame.paddingLeft = "@ + padding + ";\n"@ + fill + "\n"@ + radius + "\nfigma.currentPage.selection = [frame];\nreturn { id: frame.id, name: frame.name };"@), "frame.paddingLeft = "@ + padding + ";"@),
{
    assert(contains_text(wrap_async_js(vars + pos + "\nconst frame = figma.createFrame();\nframe.name = "@ + nq + ";\nframe.x = smartX;\nframe.y = "@ + y + ";\nframe.layoutMode = "@ + mq + ";\nframe.primaryAxisSizingMode = 'AUTO';\nframe.counterAxisSizingMode = 'AUTO';\nframe.itemSpacing = "@ + gap + ";\nframe.paddingTop = "@ + padding + "; frame.paddingRight = "@ + padding + "; frame.paddingBottom = "@ + padding + "; frame.paddingLeft = "@ + padding + ";\n"@ + fill + "\n"@ + radius + "\nfigma.currentPage.selection = [frame];\nreturn { id: frame.id, name: frame.name };"@), "frame.paddingLeft = "@ + padding + ";"@)) by {
        reveal_strlit("\n");
        reveal_strlit("\nconst frame = figma.createFrame();\nframe.name = ");
        reveal_strlit("\nfigma.currentPage.selection = [frame];\nreturn { id: frame.id, name: frame.name };");
        reveal_strlit("\n})()");
        reveal_strlit("(async () => {\n");
        reveal_strlit(";");
        reveal_strlit(";\n");
        reveal_strlit(";\nframe.layoutMode = ");
        reveal_strlit(";\nframe.paddingTop = ");
        reveal_strlit(";\nframe.primaryAxisSizingMode = 'AUTO';\nframe.counterAxisSizingMode = 'AUTO';\nframe.itemSpacing = ");
        reveal_strlit(";\nframe.x = smartX;\nframe.y = ");
        reveal_strlit("; ");
        reveal_strlit("; frame.paddingBottom = ");
        reveal_strlit("; frame.paddingLeft = ");
        reveal_strlit("; frame.paddingRight = ");
        reveal_strlit("frame.paddingLeft = ");
        assert("; frame.paddingLeft = "@ =~= "; "@ + "frame.paddingLeft = "@);
        assert(";\n"@ =~= ";"@ + "\n"@);
        let a = "(async () => {\n"@ + vars + pos + "\nconst frame = figma.createFrame();\nframe.name = "@ + nq + ";\nframe.x = smartX;\nframe.y = "@ + y + ";\nframe.layoutMode = "@ + mq + ";\nframe.primaryAxisSizingMode = 'AUTO';\nframe.counterAxisSizingMode = 'AUTO';\nframe.itemSpacing = "@ + gap + ";\nframe.paddingTop = "@ + padding + "; frame.paddingRight = "@ + padding + "; frame.paddingBottom = "@ + padding + "; "@;
        let p = "frame.paddingLeft = "@ + padding + ";"@;
        let c = "\n"@ + fill + "\n"@ + radius + "\nfigma.currentPage.selection = [frame];\nreturn { id: frame.id, name: frame.name };"@ + "\n})()"@;
        assert(wrap_async_js(vars + pos + "\nconst frame = figma.createFrame();\nframe.name = "@ + nq + ";\nframe.x = smartX;\nframe.y = "@ + y + ";\nframe.layoutMode = "@ + mq + ";\nframe.primaryAxisSizingMode = 'AUTO';\nframe.counterAxisSizingMode = 'AUTO';\nframe.itemSpacing = "@ + gap + ";\nframe.paddingTop = "@ + padding + "; frame.paddingRight = "@ + padding + "; frame.paddingBottom = "@ + padding + "; frame.paddingLeft = "@ + padding + ";\n"@ + fill + "\n"@ + radius + "\nfigma.currentPage.selection = [frame];\nreturn { id: frame.id, name: frame.name };"@) =~= a + p + c);
        lemma_contains_mid(a, p, c);
    }
}

/// Law: `create autolayout` puts the frame at `y` down, lays it out
/// vertically for direction `col` and horizontally otherwise, spaces its
/// items by `gap` and pads all four sides by `padding`.
#[verifier::spinoff_prover]
pub proof fn lemma_create_autolayout_layout(o: AutoLayoutOpts)
    ensures
        contains_text(create_autolayout_js(o), "frame.y = "@ + o.y@ + ";"@),
        contains_text(create_autolayout_js(o), "frame.layoutMode = "@ + json_quote(if o.direction@ == "col"@ { "VERTICAL"@ } else { "HORIZONTAL"@ }) + ";"@),
        contains_text(create_autolayout_js(o), "frame.itemSpacing = "@ + o.gap@ + ";"@),
        contains_text(create_autolayout_js(o), "frame.paddingTop = "@ + o.padding@ + ";"@),
        contains_text(create_autolayout_js(o), "frame.paddingRight = "@ + o.padding@ + ";"@),
        contains_text(create_autolayout_js(o), "frame.paddingBottom = "@ + o.padding@ + ";"@),
        contains_text(create_autolayout_js(o), "frame.paddingLeft = "@ + o.padding@ + ";"@),
{
    lemma_autolayout_layout_0(vars_js(opt_uses_vars(opt_string_text(o.fill))), smart_x_js(opt_string_text(o.x), o.spacing@),
        json_quote(text_or(opt_string_text(o.name), "Auto Layout"@)), o.y@, json_quote(if o.direction@ == "col"@ { "VERTICAL"@ } else { "HORIZONTAL"@ }),
        o.gap@, o.padding@, match opt_string_text(o.fill) {
            Some(c) => fill_js(c, "frame"@, "fills"@),
            None => "frame.fills = [];"@,
        }, opt_stmt_js(opt_string_text(o.radius), "frame.cornerRadius = "@, ";"@));
    lemma_autolayout_layout_1(vars_js(opt_uses_vars(opt_string_text(o.fill))), smart_x_js(opt_string_text(o.x), o.spacing@),
        json_quote(text_or(opt_string_text(o.name), "Auto Layout"@)), o.y@, json_quote(if o.direction@ == "col"@ { "VERTICAL"@ } else { "HORIZONTAL"@ }),
        o.gap@, o.padding@, match opt_string_text(o.fill) {
            Some(c) => fill_js(c, "frame"@, "fills"@),
            None => "frame.fills = [];"@,
        }, opt_stmt_js(opt_string_text(o.radius), "frame.cornerRadius = "@, ";"@));
    lemma_autolayout_layout_2(vars_js(opt_uses_vars(opt_string_text(o.fill))), smart_x_js(opt_string_text(o.x), o.spacing@),
        json_quote(text_or(opt_string_text(o.name), "Auto Layout"@)), o.y@, json_quote(if o.direction@ == "col"@ { "VERTICAL"@ } else { "HORIZONTAL"@ }),
        o.gap@, o.padding@, match opt_string_text(o.fill) {
            Some(c) => fill_js(c, "frame"@, "fills"@),
            None => "frame.fills = [];"@,
        }, opt_stmt_js(opt_string_text(o.radius), "frame.cornerRadius = "@, ";"@));
    lemma_autolayout_layout_3(vars_js(opt_uses_vars(opt_string_text(o.fill))), smart_x_js(opt_string_text(o.x), o.spacing@),
        json_quote(text_or(opt_string_text(o.name), "Auto Layout"@)), o.y@, json_quote(if o.direction@ == "col"@ { "VERTICAL"@ } else { "HORIZONTAL"@ }),
        o.gap@, o.padding@, match opt_string_text(o.fill) {
            Some(c) => fill_js(c, "frame"@, "fills"@),
            None => "frame.fills = [];"@,
        }, opt_stmt_js(opt_string_text(o.radius), "frame.cornerRadius = "@, ";"@));
    lemma_autolayout_layout_4(vars_js(opt_uses_vars(opt_string_text(o.fill))), smart_x_js(opt_string_text(o.x), o.spacing@),
        json_quote(text_or(opt_string_text(o.name), "Auto Layout"@)), o.y@, json_quote(if o.direction@ == "col"@ { "VERTICAL"@ } else { "HORIZONTAL"@ }),
        o.gap@, o.padding@, match opt_string_text(o.fill) {
            Some(c) => fill_js(c, "frame"@, "fills"@),
            None => "frame.fills = [];"@,
        }, opt_stmt_js(opt_string_text(o.radius), "frame.cornerRadius = "@, ";"@));
    lemma_autolayout_layout_5(vars_js(opt_uses_vars(opt_string_text(o.fill))), smart_x_js(opt_string_text(o.x), o.spacing@),
        json_quote(text_or(opt_string_text(o.name), "Auto Layout"@)), o.y@, json_quote(if o.direction@ == "col"@ { "VERTICAL"@ } else { "HORIZONTAL"@ }),
        o.gap@, o.padding@, match opt_string_text(o.fill) {
            Some(c) => fill_js(c, "frame"@, "fills"@),
            None => "frame.fills = [];"@,
        }, opt_stmt_js(opt_string_text(o.radius), "frame.cornerRadius = "@, ";"@));
    lemma_autolayout_layout_6(vars_js(opt_uses_vars(opt_string_text(o.fill))), smart_x_js(opt_string_text(o.x), o.spacing@),
        json_quote(text_or(opt_string_text(o.name), "Auto Layout"@)), o.y@, json_quote(if o.direction@ == "col"@ { "VERTICAL"@ } else { "HORIZONTAL"@ }),
        o.gap@, o.padding@, match opt_string_text(o.fill) {
            Some(c) => fill_js(c, "frame"@, "fills"@),
            None => "frame.fills = [];"@,
        }, opt_stmt_js(opt_string_text(o.radius), "frame.cornerRadius = "@, ";"@));
}

/// The statements of the script built from these pieces.
proof fn lemma_sizing_hug_layout(h: Seq<char>, v: Seq<char>)
    ensures
        contains_text(wrap_async_js("const nodes = figma.currentPage.selection;\nif (nodes.length === 0) return 'No selection';\nnodes.forEach(n => { "@ + h + " "@ + v + " if (n.layoutMode) { n.primaryAxisSizingMode = 'AUTO'; n.counterAxisSizingMode = 'AUTO'; } });\nreturn 'Set hug on ' + nodes.length + ' element(s)';"@), h),
        contains_text(wrap_async_js("const nodes = figma.currentPage.selection;\nif (nodes.length === 0) return 'No selection';\nnodes.forEach(n => { "@ + h + " "@ + v + " if (n.layoutMode) { n.primaryAxisSizingMode = 'AUTO'; n.counterAxisSizingMode = 'AUTO'; } });\nreturn 'Set hug on ' + nodes.length + ' element(s)';"@), v),
{
    assert(contains_text(wrap_async_js("const nodes = figma.currentPage.selection;\nif (nodes.length === 0) return 'No selection';\nnodes.forEach(n => { "@ + h + " "@ + v + " if (n.layoutMode) { n.primaryAxisSizingMode = 'AUTO'; n.counterAxisSizingMode = 'AUTO'; } });\nreturn 'Set hug on ' + nodes.length + ' element(s)';"@), h)) by {
        reveal_strlit("\n})()");
        reveal_strlit(" ");
        reveal_strlit(" if (n.layoutMode) { n.primaryAxisSizingMode = 'AUTO'; n.counterAxisSizingMode = 'AUTO'; } });\nreturn 'Set hug on ' + nodes.length + ' element(s)';");
        reveal_strlit("(async () => {\n");
        reveal_strlit("const nodes = figma.currentPage.selection;\nif (nodes.length === 0) return 'No selection';\nnodes.forEach(n => { ");
        let a = "(async () => {\n"@ + "const nodes = figma.currentPage.selection;\nif (nodes.length === 0) return 'No selection';\nnodes.forEach(n => { "@;
        let p = h;
        let c = " "@ + v + " if (n.layoutMode) { n.primaryAxisSizingMode = 'AUTO'; n.counterAxisSizingMode = 'AUTO'; } });\nreturn 'Set hug on ' + nodes.length + ' element(s)';"@ + "\n})()"@;
        assert(wrap_async_js("const nodes = figma.currentPage.selection;\nif (nodes.length === 0) return 'No selection';\nnodes.forEach(n => { "@ + h + " "@ + v + " if (n.layoutMode) { n.primaryAxisSizingMode = 'AUTO'; n.counterAxisSizingMode = 'AUTO'; } });\nreturn 'Set hug on ' + nodes.length + ' element(s)';"@) =~= a + p + c);
        lemma_contains_mid(a, p, c);
    }
    assert(contains_text(wrap_async_js("const nodes = figma.currentPage.selection;\nif (nodes.length === 0) return 'No selection';\nnodes.forEach(n => { "@ + h + " "@ + v + " if (n.layoutMode) { n.primaryAxisSizingMode = 'AUTO'; n.counterAxisSizingMode = 'AUTO'; } });\nreturn 'Set hug on ' + nodes.length + ' element(s)';"@), v)) by {
        reveal_strlit("\n})()");
        reveal_strlit(" ");
        reveal_strlit(" if (n.layoutMode) { n.primaryAxisSizingMode = 'AUTO'; n.counterAxisSizingMode = 'AUTO'; } });\nreturn 'Set hug on ' + nodes.length + ' element(s)';");
        reveal_strlit("(async () => {\n");
        reveal_strlit("const nodes = figma.currentPage.selection;\nif (nodes.length === 0) return 'No selection';\nnodes.forEach(n => { ");
        let a = "(async () => {\n"@ + "const nodes = figma.currentPage.selection;\nif (nodes.length === 0) return 'No selection';\nnodes.forEach(n => { "@ + h + " "@;
        let p = v;
        let c = " if (n.layoutMode) { n.primaryAxisSizingMode = 'AUTO'; n.counterAxisSizingMode = 'AUTO'; } });\nreturn 'Set hug on ' + nodes.length + ' element(s)';"@ + "\n})()"@;
        assert(wrap_async_js("const nodes = figma.currentPage.selection;\nif (nodes.length === 0) return 'No selection';\nnodes.forEach(n => { "@ + h + " "@ + v + " if (n.layoutMode) { n.primaryAxisSizingMode = 'AUTO'; n.counterAxisSizingMode = 'AUTO'; } });\nreturn 'Set hug on ' + nodes.length + ' element(s)';"@) =~= a + p + c);
        lemma_contains_mid(a, p, c);
    }
}

/// Law: `sizing hug <axis>` sets the horizontal sizing to HUG for `h`
/// and `both`, and the vertical sizing for `v` and `both`.
pub proof fn lemma_sizing_hug_axes(axis: Seq<char>)
    ensures
        (axis == "h"@ || axis == "both"@) ==> contains_text(sizing_hug_js(axis), "if ('layoutSizingHorizontal' in n) n.layoutSizingHorizontal = 'HUG';"@),
        (axis == "v"@ || axis == "both"@) ==> contains_text(sizing_hug_js(axis), "if ('layoutSizingVertical' in n) n.layoutSizingVertical = 'HUG';"@),
{
    lemma_sizing_hug_layout(if axis == "h"@ || axis == "both"@ { "if ('layoutSizingHorizontal' in n) n.layoutSizingHorizontal = 'HUG';"@ } else { Seq::empty() }, if axis == "v"@ || axis == "both"@ { "if ('layoutSizingVertical' in n) n.layoutSizingVertical = 'HUG';"@ } else { Seq::empty() });
}

/// The statements of the script built from these pieces.
proof fn lemma_sizing_fill_layout(h: Seq<char>, v: Seq<char>)
    ensures
        contains_text(wrap_async_js("const nodes = figma.currentPage.selection;\nif (nodes.length === 0) return 'No selection';\nnodes.forEach(n => { "@ + h + " "@ + v + " });\nreturn 'Set fill on ' + nodes.length + ' element(s)';"@), h),
        contains_text(wrap_async_js("const nodes = figma.currentPage.selection;\nif (nodes.length === 0) return 'No selection';\nnodes.forEach(n => { "@ + h + " "@ + v + " });\nreturn 'Set fill on ' + nodes.length + ' element(s)';"@), v),
{
    assert(contains_text(wrap_async_js("const nodes = figma.currentPage.selection;\nif (nodes.length === 0) return 'No selection';\nnodes.forEach(n => { "@ + h + " "@ + v + " });\nreturn 'Set fill on ' + nodes.length + ' element(s)';"@), h)) by {
        reveal_strlit("\n})()");
        reveal_strlit(" ");
        reveal_strlit(" });\nreturn 'Set fill on ' + nodes.length + ' element(s)';");
        reveal_strlit("(async () => {\n");
        reveal_strlit("const nodes = figma.currentPage.selection;\nif (nodes.length === 0) return 'No selection';\nnodes.forEach(n => { ");
        let a = "(async () => {\n"@ + "const nodes = figma.currentPage.selection;\nif (nodes.length === 0) return 'No selection';\nnodes.forEach(n => { "@;
        let p = h;
        let c = " "@ + v + " });\nreturn 'Set fill on ' + nodes.length + ' element(s)';"@ + "\n})()"@;
        assert(wrap_async_js("const nodes = figma.currentPage.selection;\nif (nodes.length === 0) return 'No selection';\nnodes.forEach(n => { "@ + h + " "@ + v + " });\nreturn 'Set fill on ' + nodes.length + ' element(s)';"@) =~= a + p + c);
        lemma_contains_mid(a, p, c);
    }
    assert(contains_text(wrap_async_js("const nodes = figma.currentPage.selection;\nif (nodes.length === 0) return 'No selection';\nnodes.forEach(n => { "@ + h + " "@ + v + " });\nreturn 'Set fill on ' + nodes.length + ' element(s)';"@), v)) by {
        reveal_strlit("\n})()");
        reveal_strlit(" ");
        reveal_strlit(" });\nreturn 'Set fill on ' + nodes.length + ' element(s)';");
        reveal_strlit("(async () => {\n");
        reveal_strlit("const nodes = figma.currentPage.selection;\nif (nodes.length === 0) return 'No selection';\nnodes.forEach(n => { ");
        let a = "(async () => {\n"@ + "const nodes = figma.currentPage.selection;\nif (nodes.length === 0) return 'No selection';\nnodes.forEach(n => { "@ + h + " "@;
        let p = v;
        let c = " });\nreturn 'Set fill on ' + nodes.length + ' element(s)';"@ + "\n})()"@;
        assert(wrap_async_js("const nodes = figma.currentPage.selection;\nif (nodes.length === 0) return 'No selection';\nnodes.forEach(n => { "@ + h + " "@ + v + " });\nreturn 'Set fill on ' + nodes.length + ' element(s)';"@) =~= a + p + c);
        lemma_contains_mid(a, p, c);
    }
}

/// Law: `sizing fill <axis>` sets the horizontal sizing to FILL for `h`
/// and `both`, and the vertical sizing for `v` and `both`.
pub proof fn lemma_sizing_fill_axes(axis: Seq<char>)
    ensures
        (axis == "h"@ || axis == "both"@) ==> contains_text(sizing_fill_js(axis), "if ('layoutSizingHorizontal' in n) n.layoutSizingHorizontal = 'FILL';"@),
        (axis == "v"@ || axis == "both"@) ==> contains_text(sizing_fill_js(axis), "if ('layoutSizingVertical' in n) n.layoutSizingVertical = 'FILL';"@),
{
    lemma_sizing_fill_layout(if axis == "h"@ || axis == "both"@ { "if ('layoutSizingHorizontal' in n) n.layoutSizingHorizontal = 'FILL';"@ } else { Seq::empty() }, if axis == "v"@ || axis == "both"@ { "if ('layoutSizingVertical' in n) n.layoutSizingVertical = 'FILL';"@ } else { Seq::empty() });
}

/// Law: `figjam update id text` looks up node `id` and writes `text` into it.
pub proof fn lemma_figjam_update_sets_text(node_id: Seq<char>, text: Seq<char>)
    ensures
        contains_text(figjam_update_js(node_id, text), "figma.getNodeByIdAsync("@ + json_quote(node_id) + ")"@),
        contains_text(figjam_update_js(node_id, text), "n.text.characters = "@ + json_quote(text) + ";"@),
        contains_text(figjam_update_js(node_id, text), "n.characters = "@ + json_quote(text) + ";"@),
{
    assert(contains_text(figjam_update_js(node_id, text), "figma.getNodeByIdAsync("@ + json_quote(node_id) + ")"@)) by {
        reveal_strlit("\n})()");
        reveal_strlit("(async () => {\n");
        reveal_strlit(")");
        reveal_strlit("); if (!n) return { error: 'Node not found' }; await figma.loadFontAsync({ family: 'Inter', style: 'Medium' }); if (n.text) n.text.characters = ");
        reveal_strlit("; else if (n.type === 'TEXT') n.characters = ");
        reveal_strlit("; if (!n) return { error: 'Node not found' }; await figma.loadFontAsync({ family: 'Inter', style: 'Medium' }); if (n.text) n.text.characters = ");
        reveal_strlit("; return { id: n.id };");
        reveal_strlit("const n = await ");
        reveal_strlit("const n = await figma.getNodeByIdAsync(");
        reveal_strlit("figma.getNodeByIdAsync(");
        assert("const n = await figma.getNodeByIdAsync("@ =~= "const n = await "@ + "figma.getNodeByIdAsync("@);
        assert("); if (!n) return { error: 'Node not found' }; await figma.loadFontAsync({ family: 'Inter', style: 'Medium' }); if (n.text) n.text.characters = "@ =~= ")"@ + "; if (!n) return { error: 'Node not found' }; await figma.loadFontAsync({ family: 'Inter', style: 'Medium' }); if (n.text) n.text.characters = "@);
        let a = "(async () => {\n"@ + "const n = await "@;
        let p = "figma.getNodeByIdAsync("@ + json_quote(node_id) + ")"@;
        let c = "; if (!n) return { error: 'Node not found' }; await figma.loadFontAsync({ family: 'Inter', style: 'Medium' }); if (n.text) n.text.characters = "@ + json_quote(text) + "; else if (n.type === 'TEXT') n.characters = "@ + json_quote(text) + "; return { id: n.id };"@ + "\n})()"@;
        assert(figjam_update_js(node_id, text) =~= a + p + c);
        lemma_contains_mid(a, p, c);
    }
    assert(contains_text(figjam_update_js(node_id, text), "n.text.characters = "@ + json_quote(text) + ";"@)) by {
        reveal_strlit("\n})()");
        reveal_strlit(" else if (n.type === 'TEXT') n.characters = ");
        reveal_strlit("(async () => {\n");
        reveal_strlit("); if (!n) return { error: 'Node not found' }; await figma.loadFontAsync({ family: 'Inter', style: 'Medium' }); if (n.text) ");
        reveal_strlit("); if (!n) return { error: 'Node not found' }; await figma.loadFontAsync({ family: 'Inter', style: 'Medium' }); if (n.text) n.text.characters = ");
        reveal_strlit(";");
        reveal_strlit("; else if (n.type === 'TEXT') n.characters = ");
        reveal_strlit("; return { id: n.id };");
        reveal_strlit("const n = await figma.getNodeByIdAsync(");
        reveal_strlit("n.text.characters = ");
        assert("); if (!n) return { error: 'Node not found' }; await figma.loadFontAsync({ family: 'Inter', style: 'Medium' }); if (n.text) n.text.characters = "@ =~= "); if (!n) return { error: 'Node not found' }; await figma.loadFontAsync({ family: 'Inter', style: 'Medium' }); if (n.text) "@ + "n.text.characters = "@);
        assert("; else if (n.type === 'TEXT') n.characters = "@ =~= ";"@ + " else if (n.type === 'TEXT') n.characters = "@);
        let a = "(async () => {\n"@ + "const n = await figma.getNodeByIdAsync("@ + json_quote(node_id) + "); if (!n) return { error: 'Node not found' }; await figma.loadFontAsync({ family: 'Inter', style: 'Medium' }); if (n.text) "@;
        let p = "n.text.characters = "@ + json_quote(text) + ";"@;
        let c = " else if (n.type === 'TEXT') n.characters = "@ + json_quote(text) + "; return { id: n.id };"@ + "\n})()"@;
        assert(figjam_update_js(node_id, text) =~= a + p + c);
        lemma_contains_mid(a, p, c);
    }
    assert(contains_text(figjam_update_js(node_id, text), "n.characters = "@ + json_quote(text) + ";"@)) by {
        reveal_strlit("\n})()");
        reveal_strlit(" return { id: n.id };");
        reveal_strlit("(async () => {\n");
        reveal_strlit("); if (!n) return { error: 'Node not found' }; await figma.loadFontAsync({ family: 'Inter', style: 'Medium' }); if (n.text) n.text.characters = ");
        reveal_strlit(";");
        reveal_strlit("; else if (n.type === 'TEXT') ");
        reveal_strlit("; else if (n.type === 'TEXT') n.characters = ");
        reveal_strlit("; return { id: n.id };");
        reveal_strlit("const n = await figma.getNodeByIdAsync(");
        reveal_strlit("n.characters = ");
        assert("; else if (n.type === 'TEXT') n.characters = "@ =~= "; else if (n.type === 'TEXT') "@ + "n.characters = "@);
        assert("; return { id: n.id };"@ =~= ";"@ + " return { id: n.id };"@);
        let a = "(async () => {\n"@ + "const n = await figma.getNodeByIdAsync("@ + json_quote(node_id) + "); if (!n) return { error: 'Node not found' }; await figma.loadFontAsync({ family: 'Inter', style: 'Medium' }); if (n.text) n.text.characters = "@ + json_quote(text) + "; else if (n.type === 'TEXT') "@;
        let p = "n.characters = "@ + json_quote(text) + ";"@;
        let c = " return { id: n.id };"@ + "\n})()"@;
        assert(figjam_update_js(node_id, text) =~= a + p + c);
        lemma_contains_mid(a, p, c);
    }
}

/// Law: `select id` looks up node `id` and makes it the selection.
pub proof fn lemma_select_selects_node(node_id: Seq<char>)
    ensures
        contains_text(select_js(node_id), "figma.getNodeByIdAsync("@ + json_quote(node_id) + ")"@),
        contains_text(select_js(node_id), "figma.currentPage.selection = [n];"@),
{
    assert(contains_text(select_js(node_id), "figma.getNodeByIdAsync("@ + json_quote(node_id) + ")"@)) by {
        reveal_strlit("\n})()");
        reveal_strlit("(async () => {\n");
        reveal_strlit(")");
        reveal_strlit("); if (!n) return 'Node not found'; figma.currentPage.selection = [n]; figma.viewport.scrollAndZoomIntoView([n]); return { id: n.id, name: n.name };");
        reveal_strlit("; if (!n) return 'Node not found'; figma.currentPage.selection = [n]; figma.viewport.scrollAndZoomIntoView([n]); return { id: n.id, name: n.name };");
        reveal_strlit("const n = await ");
        reveal_strlit("const n = await figma.getNodeByIdAsync(");
        reveal_strlit("figma.getNodeByIdAsync(");
        assert("const n = await figma.getNodeByIdAsync("@ =~= "const n = await "@ + "figma.getNodeByIdAsync("@);
        assert("); if (!n) return 'Node not found'; figma.currentPage.selection = [n]; figma.viewport.scrollAndZoomIntoView([n]); return { id: n.id, name: n.name };"@ =~= ")"@ + "; if (!n) return 'Node not found'; figma.currentPage.selection = [n]; figma.viewport.scrollAndZoomIntoView([n]); return { id: n.id, name: n.name };"@);
        let a = "(async () => {\n"@ + "const n = await "@;
        let p = "figma.getNodeByIdAsync("@ + json_quote(node_id) + ")"@;
        let c = "; if (!n) return 'Node not found'; figma.currentPage.selection = [n]; figma.viewport.scrollAndZoomIntoView([n]); return { id: n.id, name: n.name };"@ + "\n})()"@;
        assert(select_js(node_id) =~= a + p + c);
        lemma_contains_mid(a, p, c);
    }
    assert(contains_text(select_js(node_id), "figma.currentPage.selection = [n];"@)) by {
        reveal_strlit("\n})()");
        reveal_strlit(" figma.viewport.scrollAndZoomIntoView([n]); return { id: n.id, name: n.name };");
        reveal_strlit("(async () => {\n");
        reveal_strlit("); if (!n) return 'Node not found'; ");
        reveal_strlit("); if (!n) return 'Node not found'; figma.currentPage.selection = [n]; figma.viewport.scrollAndZoomIntoView([n]); return { id: n.id, name: n.name };");
        reveal_strlit("const n = await figma.getNodeByIdAsync(");
        reveal_strlit("figma.currentPage.selection = [n];");
        assert("); if (!n) return 'Node not found'; figma.currentPage.selection = [n]; figma.viewport.scrollAndZoomIntoView([n]); return { id: n.id, name: n.name };"@ =~= "); if (!n) return 'Node not found'; "@ + "figma.currentPage.selection = [n];"@ + " figma.viewport.scrollAndZoomIntoView([n]); return { id: n.id, name: n.name };"@);
        let a = "(async () => {\n"@ + "const n = await figma.getNodeByIdAsync("@ + json_quote(node_id) + "); if (!n) return 'Node not found'; "@;
        let p = "figma.currentPage.selection = [n];"@;
        let c = " figma.viewport.scrollAndZoomIntoView([n]); return { id: n.id, name: n.name };"@ + "\n})()"@;
        assert(select_js(node_id) =~= a + p + c);
        lemma_contains_mid(a, p, c);
    }
}

/// The statements of the script built from these pieces.
proof fn lemma_delete_one_layout(id: Seq<char>)
    ensures
        contains_text(wrap_async_js("const n = await figma.getNodeByIdAsync("@ + json_quote(id) + "); if (!n) return 'Node not found'; n.remove(); return 'Deleted ' + "@ + json_quote(id) + ";"@), "figma.getNodeByIdAsync("@ + json_quote(id) + ")"@),
        contains_text(wrap_async_js("const n = await figma.getNodeByIdAsync("@ + json_quote(id) + "); if (!n) return 'Node not found'; n.remove(); return 'Deleted ' + "@ + json_quote(id) + ";"@), "n.remove();"@),
{
    assert(contains_text(wrap_async_js("const n = await figma.getNodeByIdAsync("@ + json_quote(id) + "); if (!n) return 'Node not found'; n.remove(); return 'Deleted ' + "@ + json_quote(id) + ";"@), "figma.getNodeByIdAsync("@ + json_quote(id) + ")"@)) by {
        reveal_strlit("\n})()");
        reveal_strlit("(async () => {\n");
        reveal_strlit(")");
        reveal_strlit("); if (!n) return 'Node not found'; n.remove(); return 'Deleted ' + ");
        reveal_strlit(";");
        reveal_strlit("; if (!n) return 'Node not found'; n.remove(); return 'Deleted ' + ");
        reveal_strlit("const n = await ");
        reveal_strlit("const n = await figma.getNodeByIdAsync(");
        reveal_strlit("figma.getNodeByIdAsync(");
        assert("const n = await figma.getNodeByIdAsync("@ =~= "const n = await "@ + "figma.getNodeByIdAsync("@);
        assert("); if (!n) return 'Node not found'; n.remove(); return 'Deleted ' + "@ =~= ")"@ + "; if (!n) return 'Node not found'; n.remove(); return 'Deleted ' + "@);
        let a = "(async () => {\n"@ + "const n = await "@;
        let p = "figma.getNodeByIdAsync("@ + json_quote(id) + ")"@;
        let c = "; if (!n) return 'Node not found'; n.remove(); return 'Deleted ' + "@ + json_quote(id) + ";"@ + "\n})()"@;
        assert(wrap_async_js("const n = await figma.getNodeByIdAsync("@ + json_quote(id) + "); if (!n) return 'Node not found'; n.remove(); return 'Deleted ' + "@ + json_quote(id) + ";"@) =~= a + p + c);
        lemma_contains_mid(a, p, c);
    }
    assert(contains_text(wrap_async_js("const n = await figma.getNodeByIdAsync("@ + json_quote(id) + "); if (!n) return 'Node not found'; n.remove(); return 'Deleted ' + "@ + json_quote(id) + ";"@), "n.remove();"@)) by {
        reveal_strlit("\n})()");
        reveal_strlit(" return 'Deleted ' + ");
        reveal_strlit("(async () => {\n");
        reveal_strlit("); if (!n) return 'Node not found'; ");
        reveal_strlit("); if (!n) return 'Node not found'; n.remove(); return 'Deleted ' + ");
        reveal_strlit(";");
        reveal_strlit("const n = await figma.getNodeByIdAsync(");
        reveal_strlit("n.remove();");
        assert("); if (!n) return 'Node not found'; n.remove(); return 'Deleted ' + "@ =~= "); if (!n) return 'Node not found'; "@ + "n.remove();"@ + " return 'Deleted ' + "@);
        let a = "(async () => {\n"@ + "const n = await figma.getNodeByIdAsync("@ + json_quote(id) + "); if (!n) return 'Node not found'; "@;
        let p = "n.remove();"@;
        let c = " return 'Deleted ' + "@ + json_quote(id) + ";"@ + "\n})()"@;
        assert(wrap_async_js("const n = await figma.getNodeByIdAsync("@ + json_quote(id) + "); if (!n) return 'Node not found'; n.remove(); return 'Deleted ' + "@ + json_quote(id) + ";"@) =~= a + p + c);
        lemma_contains_mid(a, p, c);
    }
}

/// Law: `delete id` looks up node `id` and removes it.
pub proof fn lemma_delete_removes_node(id: Seq<char>)
    ensures
        contains_text(delete_js(Some(id)), "figma.getNodeByIdAsync("@ + json_quote(id) + ")"@),
        contains_text(delete_js(Some(id)), "n.remove();"@),
{
    lemma_delete_one_layout(id);
}

/// Law: `bind <field> name` binds the variable to the property `field` of each
/// chosen node.
pub proof fn lemma_bind_prop_binds_field(sel: Sel, var_name: Seq<char>, field: Seq<char>)
    ensures
        contains_text(bind_prop_js(sel, var_name, field), "n.setBoundVariable('"@ + field + "', v)"@),
{
    assert(contains_text(bind_prop_js(sel, var_name, field), "n.setBoundVariable('"@ + field + "', v)"@)) by {
        reveal_strlit("\nnodes.forEach(n => { if ('");
        reveal_strlit("\n})()");
        reveal_strlit(" on ' + nodes.length + ' element(s)';");
        reveal_strlit("' in n) ");
        reveal_strlit("' in n) n.setBoundVariable('");
        reveal_strlit("', v)");
        reveal_strlit("', v); });\nreturn 'Bound ' + v.name + ' to ");
        reveal_strlit("(async () => {\n");
        reveal_strlit("; });\nreturn 'Bound ' + v.name + ' to ");
        reveal_strlit("n.setBoundVariable('");
        assert("' in n) n.setBoundVariable('"@ =~= "' in n) "@ + "n.setBoundVariable('"@);
        assert("', v); });\nreturn 'Bound ' + v.name + ' to "@ =~= "', v)"@ + "; });\nreturn 'Bound ' + v.name + ' to "@);
        let a = "(async () => {\n"@ + bind_lookup_js(sel, var_name) + "\nnodes.forEach(n => { if ('"@ + field + "' in n) "@;
        let p = "n.setBoundVariable('"@ + field + "', v)"@;
        let c = "; });\nreturn 'Bound ' + v.name + ' to "@ + field + " on ' + nodes.length + ' element(s)';"@ + "\n})()"@;
        assert(bind_prop_js(sel, var_name, field) =~= a + p + c);
        lemma_contains_mid(a, p, c);
    }
}

} // verus!
