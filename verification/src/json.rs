//! JSON text of strings and string lists, as serde_json writes them. The
//! generated scripts embed user text only through these literals.

use vstd::prelude::*;
use crate::cli::Json;
use crate::parsing::{parsed_json, parsed_string_array};
use crate::text::digit_char;

verus! {

/// Lower-case hexadecimal digit for `d < 16`.
pub open spec fn hex_digit_char(d: nat) -> char {
    if d < 10 { digit_char(d) }
    else if d == 10 { 'a' }
    else if d == 11 { 'b' }
    else if d == 12 { 'c' }
    else if d == 13 { 'd' }
    else if d == 14 { 'e' }
    else { 'f' }
}

/// The JSON escape of one character inside a string literal: quote and
/// backslash are escaped, the control characters below U+0020 use their short
/// form where JSON has one and `\u00XX` otherwise; every other character
/// stands for itself.
pub open spec fn escape_char(c: char) -> Seq<char> {
    if c == '"' {
        seq!['\\', '"']
    } else if c == '\\' {
        seq!['\\', '\\']
    } else if c == '\u{8}' {
        seq!['\\', 'b']
    } else if c == '\u{c}' {
        seq!['\\', 'f']
    } else if c == '\n' {
        seq!['\\', 'n']
    } else if c == '\r' {
        seq!['\\', 'r']
    } else if c == '\t' {
        seq!['\\', 't']
    } else if (c as u32) < 0x20 {
        seq!['\\', 'u', '0', '0', hex_digit_char((c as u32 / 16) as nat), hex_digit_char((c as u32 % 16) as nat)]
    } else {
        seq![c]
    }
}

/// The escaped body of a JSON string literal.
pub open spec fn escape_text(s: Seq<char>) -> Seq<char>
    decreases s.len(),
{
    if s.len() == 0 {
        Seq::empty()
    } else {
        escape_char(s[0]) + escape_text(s.drop_first())
    }
}

/// The JSON string literal that encodes `s`.
pub open spec fn json_quote(s: Seq<char>) -> Seq<char> {
    seq!['"'] + escape_text(s) + seq!['"']
}

/// The string literals of `items`, separated by commas.
pub open spec fn quoted_list(items: Seq<Seq<char>>) -> Seq<char>
    decreases items.len(),
{
    if items.len() == 0 {
        Seq::empty()
    } else if items.len() == 1 {
        json_quote(items[0])
    } else {
        quoted_list(items.drop_last()) + seq![','] + json_quote(items.last())
    }
}

/// The compact JSON array of the strings `items`.
pub open spec fn json_string_array(items: Seq<Seq<char>>) -> Seq<char> {
    seq!['['] + quoted_list(items) + seq![']']
}

/// The texts of a list of strings.
pub open spec fn texts_of(v: Seq<String>) -> Seq<Seq<char>> {
    v.map_values(|s: String| s@)
}

#[verifier::external_type_specification]
#[verifier::external_body]
pub struct ExJsonError(serde_json::Error);

/// Calls `serde_json::to_string` on a `&str`. The crate writes the string
/// through its compact formatter into a `Vec<u8>`, whose writes cannot fail,
/// and escapes exactly the characters of `escape_char`; so the result is `Ok`
/// and holds the literal `json_quote(s)`, which serde_json's reader (whose
/// unescaping undoes exactly those escapes) reads back as the string `s`.
#[verifier::external_body]
fn serialize_str(s: &str) -> (r: Result<String, serde_json::Error>)
    ensures
        r is Ok,
        r matches Ok(t) ==> t@ == json_quote(s@),
        r matches Ok(t) ==> match parsed_json(t@) {
            Some(Json::Str(u)) => u@ == s@,
            _ => false,
        },
{
    serde_json::to_string(s)
}

/// Calls `serde_json::to_string` on a slice of `String`. The compact formatter
/// writes `[`, the string literals separated by `,`, and `]` into a `Vec<u8>`,
/// whose writes cannot fail; so the result is `Ok` and holds
/// `json_string_array` of the texts, which `from_str::<Vec<String>>` reads
/// back as the same list.
#[verifier::external_body]
fn serialize_strings(items: &[String]) -> (r: Result<String, serde_json::Error>)
    ensures
        r is Ok,
        r matches Ok(t) ==> t@ == json_string_array(texts_of(items@)),
        r matches Ok(t) ==> parsed_string_array(t@) == Some(texts_of(items@)),
{
    serde_json::to_string(items)
}

/// JSON-encode a string for safe interpolation into generated JS; read back
/// as JSON, the literal is the string itself.
pub fn js_string(s: &str) -> (r: String)
    ensures
        r@ == json_quote(s@),
        match parsed_json(r@) {
            Some(Json::Str(u)) => u@ == s@,
            _ => false,
        },
{
    match serialize_str(s) {
        Ok(t) => t,
        Err(_) => String::from_str("\"\""),
    }
}

/// JSON array text of a list of strings. Serialising strings never fails;
/// were it to, the text would be `[]`.
pub fn js_string_array(items: &[String]) -> (r: String)
    ensures
        r@ == json_string_array(texts_of(items@)),
        parsed_string_array(r@) == Some(texts_of(items@)),
{
    match serialize_strings(items) {
        Ok(t) => t,
        Err(_) => String::from_str("[]"),
    }
}


/// The character value of a hexadecimal digit produced by `hex_digit_char`.
proof fn lemma_hex_digit_char_injective(a: nat, b: nat)
    requires
        a < 16,
        b < 16,
        hex_digit_char(a) == hex_digit_char(b),
    ensures
        a == b,
{
}

/// The escape of a character is never empty.
proof fn lemma_escape_char_nonempty(c: char)
    ensures
        escape_char(c).len() >= 1,
{
}

/// Two escapes that begin two equal texts are the escapes of the same
/// character: an escape is recognised from its first characters.
proof fn lemma_escape_char_prefix(a: char, b: char, x: Seq<char>, y: Seq<char>)
    requires
        escape_char(a) + x == escape_char(b) + y,
    ensures
        a == b,
        x == y,
{
    let ea = escape_char(a);
    let eb = escape_char(b);
    let t = ea + x;
    assert(t[0] == ea[0]);
    assert((eb + y)[0] == eb[0]);
    if ea.len() == 1 {
        // a plain character: not a backslash
        assert(eb[0] == a);
        if eb.len() != 1 {
            assert(eb[0] == '\\');
        }
        assert(eb.len() == 1);
    } else {
        assert(ea[0] == '\\');
        assert(eb.len() != 1);
        assert(t[1] == ea[1]);
        assert((eb + y)[1] == eb[1]);
        if ea.len() == 2 {
            assert(eb.len() == 2);
        } else {
            assert(ea[1] == 'u');
            assert(eb[1] == 'u');
            assert(eb.len() == 6);
            assert(t[4] == ea[4] && (eb + y)[4] == eb[4]);
            assert(t[5] == ea[5] && (eb + y)[5] == eb[5]);
            lemma_hex_digit_char_injective((a as u32 / 16) as nat, (b as u32 / 16) as nat);
            lemma_hex_digit_char_injective((a as u32 % 16) as nat, (b as u32 % 16) as nat);
            assert(a as u32 == b as u32);
        }
    }
    assert(ea =~= eb);
    assert(x =~= t.skip(ea.len() as int));
    assert(y =~= (eb + y).skip(eb.len() as int));
}

/// Distinct texts have distinct escaped bodies.
pub proof fn lemma_escape_text_injective(a: Seq<char>, b: Seq<char>)
    requires
        escape_text(a) == escape_text(b),
    ensures
        a == b,
    decreases a.len(),
{
    if a.len() == 0 {
        if b.len() != 0 {
            lemma_escape_char_nonempty(b[0]);
            assert(escape_text(b) == escape_char(b[0]) + escape_text(b.drop_first()));
            assert(escape_text(b).len() >= 1);
        }
        assert(b.len() == 0);
        assert(a =~= b);
    } else {
        if b.len() == 0 {
            lemma_escape_char_nonempty(a[0]);
            assert(escape_text(a) == escape_char(a[0]) + escape_text(a.drop_first()));
            assert(escape_text(a).len() >= 1);
            assert(false);
        }
        lemma_escape_char_prefix(a[0], b[0], escape_text(a.drop_first()), escape_text(b.drop_first()));
        lemma_escape_text_injective(a.drop_first(), b.drop_first());
        assert(a =~= seq![a[0]] + a.drop_first());
        assert(b =~= seq![b[0]] + b.drop_first());
    }
}

/// Law: the JSON literal of a text determines the text, so two different
/// texts are never interpolated as the same script literal.
pub proof fn lemma_json_quote_injective(a: Seq<char>, b: Seq<char>)
    requires
        json_quote(a) == json_quote(b),
    ensures
        a == b,
{
    let ea = escape_text(a);
    let eb = escape_text(b);
    assert(json_quote(a).len() == ea.len() + 2);
    assert(ea =~= json_quote(a).subrange(1, json_quote(a).len() - 1));
    assert(eb =~= json_quote(b).subrange(1, json_quote(b).len() - 1));
    lemma_escape_text_injective(a, b);
}

/// No escape holds a control character or an unescaped quote by itself: its
/// characters are at least U+0020, and a `"` in it follows a backslash.
proof fn lemma_escape_char_safe(c: char)
    ensures
        forall|i: int| 0 <= i < escape_char(c).len() ==> (#[trigger] escape_char(c)[i] as u32) >= 0x20,
        forall|i: int| 0 <= i < escape_char(c).len() && #[trigger] escape_char(c)[i] == '"' ==> i == 1 && escape_char(c)[0] == '\\',
{
}

/// Law: the escaped body of a text holds no control character (so no line
/// break can end the script literal) and starts no unescaped quote.
pub proof fn lemma_escape_text_safe(s: Seq<char>)
    ensures
        forall|i: int| 0 <= i < escape_text(s).len() ==> (#[trigger] escape_text(s)[i] as u32) >= 0x20,
        forall|i: int| 0 <= i < escape_text(s).len() && #[trigger] escape_text(s)[i] == '"' ==> i > 0 && escape_text(s)[i - 1] == '\\',
    decreases s.len(),
{
    if s.len() > 0 {
        let e = escape_char(s[0]);
        let r = escape_text(s.drop_first());
        lemma_escape_char_safe(s[0]);
        lemma_escape_text_safe(s.drop_first());
        assert forall|i: int| 0 <= i < escape_text(s).len() implies (#[trigger] escape_text(s)[i] as u32) >= 0x20 by {
            if i < e.len() {
                assert(escape_text(s)[i] == e[i]);
            } else {
                assert(escape_text(s)[i] == r[i - e.len()]);
            }
        }
        assert forall|i: int| 0 <= i < escape_text(s).len() && #[trigger] escape_text(s)[i] == '"' implies i > 0 && escape_text(s)[i - 1] == '\\' by {
            if i < e.len() {
                assert(escape_text(s)[i] == e[i]);
                assert(escape_text(s)[i - 1] == e[i - 1]);
            } else {
                assert(escape_text(s)[i] == r[i - e.len()]);
                let j = i - e.len();
                if j == 0 {
                    assert(r[0] == '"');
                    assert(false);
                }
                assert(escape_text(s)[i - 1] == r[j - 1]);
            }
        }
    }
}

} // verus!
