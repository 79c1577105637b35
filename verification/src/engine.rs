//! Decisions around the JSX render engine: the token presets it knows and
//! the Iconify URLs of the `<Icon>` names it meets.

use vstd::prelude::*;
use crate::json::texts_of;
use crate::text::{find_char, first_index_of, same_text};

verus! {

/// The design-token presets.
#[derive(PartialEq, Eq, Structural, Debug, Clone, Copy)]
pub enum TokenPreset {
    Shadcn,
}

/// The preset named `name`, or the error text for an unknown name.
pub open spec fn tokens_preset_of(name: Seq<char>) -> Result<TokenPreset, Seq<char>> {
    if name == "shadcn"@ {
        Ok(TokenPreset::Shadcn)
    } else {
        Err("unknown token preset '"@ + name + "' (available: shadcn)"@)
    }
}

/// The token preset that `tokens preset <name>` installs.
pub fn tokens_preset(name: &str) -> (r: Result<TokenPreset, String>)
    ensures
        match tokens_preset_of(name@) {
            Ok(p) => r == Ok::<TokenPreset, String>(p),
            Err(m) => r matches Err(e) && e@ == m,
        },
{
    if same_text(name, "shadcn") {
        Ok(TokenPreset::Shadcn)
    } else {
        let mut s = String::from_str("unknown token preset '");
        s.append(name);
        s.append("' (available: shadcn)");
        Err(s)
    }
}

/// The Iconify URL of an icon `prefix:icon` (split at the first `:`), or
/// `None` for a name without `:`.
pub open spec fn icon_url_of(name: Seq<char>) -> Option<Seq<char>> {
    match first_index_of(name, ':') {
        Some(k) => Some("https://api.iconify.design/"@ + name.take(k) + "/"@ + name.skip(k + 1)
            + ".svg?width=24&height=24"@),
        None => None,
    }
}

/// The URL from which an `<Icon>` SVG is fetched (24×24).
pub fn icon_url(name: &str) -> (r: Option<String>)
    ensures
        match icon_url_of(name@) {
            Some(u) => r matches Some(s) && s@ == u,
            None => r is None,
        },
{
    match find_char(name, ':') {
        Some(k) => {
            let n = name.unicode_len();
            let mut s = String::from_str("https://api.iconify.design/");
            s.append(name.substring_char(0, k));
            s.append("/");
            s.append(name.substring_char(k + 1, n));
            s.append(".svg?width=24&height=24");
            assert(name@.subrange(0, k as int) =~= name@.take(k as int));
            assert(name@.subrange(k + 1, n as int) =~= name@.skip(k + 1));
            Some(s)
        },
        None => None,
    }
}

/// The icons to fetch: each name with its URL, for the names that have one,
/// in order.
pub open spec fn icon_requests_of(names: Seq<Seq<char>>) -> Seq<(Seq<char>, Seq<char>)>
    decreases names.len(),
{
    if names.len() == 0 {
        Seq::empty()
    } else {
        let rest = icon_requests_of(names.drop_last());
        match icon_url_of(names.last()) {
            Some(u) => rest.push((names.last(), u)),
            None => rest,
        }
    }
}

/// The name and URL of each icon to fetch.
pub fn icon_requests(names: &[String]) -> (r: Vec<(String, String)>)
    ensures
        r@.map_values(|p: (String, String)| (p.0@, p.1@)) == icon_requests_of(texts_of(names@)),
{
    let mut out: Vec<(String, String)> = Vec::new();
    let mut i: usize = 0;
    assert(texts_of(names@).take(0) =~= Seq::<Seq<char>>::empty());
    assert(out@.map_values(|p: (String, String)| (p.0@, p.1@)) =~= Seq::<(Seq<char>, Seq<char>)>::empty());
    while i < names.len()
        invariant
            i <= names@.len(),
            out@.map_values(|p: (String, String)| (p.0@, p.1@)) == icon_requests_of(texts_of(names@).take(i as int)),
        decreases names@.len() - i,
    {
        let ghost before = out@;
        assert(texts_of(names@).take(i + 1).drop_last() =~= texts_of(names@).take(i as int));
        assert(texts_of(names@).take(i + 1).last() == names@[i as int]@);
        match icon_url(names[i].as_str()) {
            Some(u) => {
                out.push((names[i].clone(), u));
                assert(out@.map_values(|p: (String, String)| (p.0@, p.1@)) =~= before.map_values(|p: (String, String)| (p.0@, p.1@)).push((names@[i as int]@, u@)));
            },
            None => {},
        }
        i = i + 1;
    }
    assert(texts_of(names@).take(names@.len() as int) =~= texts_of(names@));
    out
}

} // verus!
