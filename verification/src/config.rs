//! Daemon address, URL and auth token. The daemon listens on 127.0.0.1:3456;
//! the token guards its HTTP routes and is 48 random lower-case hex digits.

use vstd::prelude::*;
use crate::json::hex_digit_char;
use crate::text::{is_prefix, decimal, digit_char, is_white_space, trim, trim_end_text, trim_start_text, trimmed, u64_text};
use rand::Rng;

verus! {

pub const DAEMON_PORT: u16 = 3456;

pub const DAEMON_HOST: &'static str = "127.0.0.1";

/// `http://<host>:<port>`.
pub open spec fn base_url_text() -> Seq<char> {
    "http://"@ + DAEMON_HOST@ + ":"@ + decimal(DAEMON_PORT as nat)
}

/// The daemon's base URL.
pub fn base_url() -> (r: String)
    ensures
        r@ == base_url_text(),
{
    let mut s = String::from_str("http://");
    s.append(DAEMON_HOST);
    s.append(":");
    s.append(u64_text(DAEMON_PORT as u64).as_str());
    s
}

/// `base` joined with the relative path `name` as `Path::join` joins on
/// Unix: a `/` goes between them unless `base` is empty or already ends in
/// `/`.
pub open spec fn join_path(base: Seq<char>, name: Seq<char>) -> Seq<char> {
    if base.len() == 0 || base.last() == '/' {
        base + name
    } else {
        base + "/"@ + name
    }
}

fn join(base: &str, name: &str) -> (r: String)
    ensures
        r@ == join_path(base@, name@),
{
    let n = base.unicode_len();
    let mut s = String::from_str(base);
    if n > 0 && base.get_char(n - 1) != '/' {
        s.append("/");
    }
    s.append(name);
    s
}

/// The daemon's pid file in the home directory `home`.
pub fn pid_file(home: &str) -> (r: String)
    ensures
        r@ == join_path(home@, ".figma-cli-daemon.pid"@),
{
    join(home, ".figma-cli-daemon.pid")
}

/// The configuration directory in the home directory `home`.
pub fn config_dir(home: &str) -> (r: String)
    ensures
        r@ == join_path(home@, ".figma-ds-cli"@),
{
    join(home, ".figma-ds-cli")
}

/// The daemon token's file in the home directory `home`.
pub fn token_file(home: &str) -> (r: String)
    ensures
        r@ == join_path(join_path(home@, ".figma-ds-cli"@), ".daemon-token"@),
{
    join(config_dir(home).as_str(), ".daemon-token")
}

/// Law: the token file lies directly inside the configuration directory:
/// its path is the directory's path, `/`, and `.daemon-token`; and both lie
/// under the home directory.
pub proof fn lemma_token_file_in_config_dir(home: Seq<char>)
    ensures
        join_path(join_path(home, ".figma-ds-cli"@), ".daemon-token"@)
            == join_path(home, ".figma-ds-cli"@) + "/"@ + ".daemon-token"@,
        home.len() > 0 ==> is_prefix(home, join_path(home, ".figma-ds-cli"@)),
        home.len() > 0 ==> is_prefix(home, join_path(home, ".figma-cli-daemon.pid"@)),
{
    reveal_strlit(".figma-ds-cli");
    let d = join_path(home, ".figma-ds-cli"@);
    assert(d.len() > 0 && d.last() == 'i');
    if home.len() > 0 {
        if home.last() == '/' {
            assert(d.take(home.len() as int) =~= home);
            assert((home + ".figma-cli-daemon.pid"@).take(home.len() as int) =~= home);
        } else {
            assert(d.take(home.len() as int) =~= home);
            assert((home + "/"@ + ".figma-cli-daemon.pid"@).take(home.len() as int) =~= home);
        }
    }
}

/// Length of a daemon token.
pub const TOKEN_LEN: usize = 48;

/// A character of a token: a lower-case hexadecimal digit.
pub open spec fn is_token_char(c: char) -> bool {
    ('0' <= c && c <= '9') || ('a' <= c && c <= 'f')
}

/// Draws a value in `0..16` with `rand::thread_rng().gen_range(0..16)`; rand
/// documents that `gen_range` returns a value inside the range. Which value
/// comes back is chance.
#[verifier::external_body]
fn random_nibble() -> (r: u8)
    ensures
        r < 16,
{
    rand::thread_rng().gen_range(0..16)
}

/// The lower-case hex digit of `n < 16`, as `char::from_digit(n, 16)` gives it.
fn hex_digit(n: u8) -> (r: &'static str)
    requires
        n < 16,
    ensures
        r@ == seq![hex_digit_char(n as nat)],
{
    let digits: [&str; 16] = ["0", "1", "2", "3", "4", "5", "6", "7", "8", "9", "a", "b", "c", "d", "e", "f"];
    proof {
        reveal_strlit("0"); reveal_strlit("1"); reveal_strlit("2"); reveal_strlit("3");
        reveal_strlit("4"); reveal_strlit("5"); reveal_strlit("6"); reveal_strlit("7");
        reveal_strlit("8"); reveal_strlit("9"); reveal_strlit("a"); reveal_strlit("b");
        reveal_strlit("c"); reveal_strlit("d"); reveal_strlit("e"); reveal_strlit("f");
        reveal_with_fuel(digit_char, 1);
    }
    let r = digits[n as usize];
    assert(r@ =~= seq![hex_digit_char(n as nat)]);
    r
}

/// The token spelled by the drawn values: each value below 16 as its
/// lower-case hex digit, in order.
pub open spec fn token_text(ns: Seq<u8>) -> Seq<char> {
    ns.map_values(|n: u8| hex_digit_char(n as nat))
}

/// The token that the drawn values `ns` (each below 16) spell.
pub fn token_from_nibbles(ns: &[u8]) -> (t: String)
    requires
        forall|i: int| 0 <= i < ns@.len() ==> #[trigger] ns@[i] < 16,
    ensures
        t@ == token_text(ns@),
{
    let mut token = String::new();
    let mut i: usize = 0;
    while i < ns.len()
        invariant
            i <= ns@.len(),
            forall|j: int| 0 <= j < ns@.len() ==> #[trigger] ns@[j] < 16,
            token@ == token_text(ns@.take(i as int)),
        decreases ns@.len() - i,
    {
        let d = hex_digit(ns[i]);
        token.append(d);
        assert(token_text(ns@.take(i + 1)) =~= token_text(ns@.take(i as int)) + seq![hex_digit_char(ns@[i as int] as nat)]);
        i = i + 1;
    }
    assert(ns@.take(ns@.len() as int) =~= ns@);
    token
}

/// A fresh daemon token: 48 random values below 16, spelled in lower-case
/// hex digits.
pub fn random_token() -> (token: String)
    ensures
        exists|ns: Seq<u8>| ns.len() == TOKEN_LEN && (forall|i: int| 0 <= i < ns.len() ==> #[trigger] ns[i] < 16)
            && token@ == token_text(ns),
        token@.len() == TOKEN_LEN,
        forall|i: int| 0 <= i < token@.len() ==> is_token_char(#[trigger] token@[i]),
{
    let mut ns: Vec<u8> = Vec::new();
    let mut i: usize = 0;
    while i < TOKEN_LEN
        invariant
            i <= TOKEN_LEN,
            ns@.len() == i,
            forall|j: int| 0 <= j < ns@.len() ==> #[trigger] ns@[j] < 16,
        decreases TOKEN_LEN - i,
    {
        ns.push(random_nibble());
        i = i + 1;
    }
    let token = token_from_nibbles(ns.as_slice());
    proof {
        assert forall|j: int| 0 <= j < token@.len() implies is_token_char(#[trigger] token@[j]) by {
            let n = ns@[j] as nat;
            assert(token@[j] == hex_digit_char(n));
            reveal_with_fuel(digit_char, 1);
        }
    }
    token
}

/// The token held in the token file's content: its trimmed text, unless that
/// is empty (a new token is made then).
pub open spec fn stored_token_text(content: Seq<char>) -> Option<Seq<char>> {
    if trimmed(content).len() > 0 {
        Some(trimmed(content))
    } else {
        None
    }
}

/// The token a token file holds, if it holds one.
pub fn stored_token(content: &str) -> (r: Option<String>)
    ensures
        match stored_token_text(content@) {
            Some(t) => r matches Some(s) && s@ == t,
            None => r is None,
        },
{
    let t = trim(content);
    if t.unicode_len() > 0 {
        Some(String::from_str(t))
    } else {
        None
    }
}

/// The token a client sends: the token file's content, trimmed.
pub fn client_token(content: &str) -> (r: String)
    ensures
        r@ == trimmed(content@),
{
    String::from_str(trim(content))
}

/// Decimal digit value of `c`, when it is one.
pub open spec fn digit_value(c: char) -> Option<nat> {
    if '0' <= c && c <= '9' {
        Some((c as u32 - '0' as u32) as nat)
    } else {
        None
    }
}

/// Value of a run of decimal digits (`None` if any character is not one).
pub open spec fn digits_value(s: Seq<char>) -> Option<nat>
    decreases s.len(),
{
    if s.len() == 0 {
        Some(0)
    } else {
        match (digits_value(s.drop_last()), digit_value(s.last())) {
            (Some(v), Some(d)) => Some(10 * v + d),
            _ => None,
        }
    }
}

/// What `str::parse::<u32>` gives: an optional `+`, then one or more decimal
/// digits whose value fits in a `u32`.
pub open spec fn parse_u32_text(s: Seq<char>) -> Option<u32> {
    let digits = if s.len() > 0 && s[0] == '+' { s.skip(1) } else { s };
    if digits.len() == 0 {
        None
    } else {
        match digits_value(digits) {
            Some(v) => if v <= u32::MAX { Some(v as u32) } else { None },
            None => None,
        }
    }
}

pub(crate) proof fn lemma_digits_value_step(s: Seq<char>, i: int)
    requires
        0 <= i < s.len(),
    ensures
        digits_value(s.take(i + 1)) == match (digits_value(s.take(i)), digit_value(s[i])) {
            (Some(v), Some(d)) => Some(10 * v + d),
            _ => None,
        },
{
    assert(s.take(i + 1).drop_last() =~= s.take(i));
}

pub(crate) proof fn lemma_digits_value_monotone(s: Seq<char>, i: int)
    requires
        0 <= i <= s.len(),
        digits_value(s) is Some,
    ensures
        digits_value(s.take(i)) is Some,
        digits_value(s.take(i))->0 <= digits_value(s)->0,
    decreases s.len() - i,
{
    if i < s.len() {
        lemma_digits_value_step(s, i);
        lemma_digits_value_monotone(s, i + 1);
    } else {
        assert(s.take(i) =~= s);
    }
}

/// Parses decimal text as `str::parse::<u32>` does.
pub fn parse_u32(s: &str) -> (r: Option<u32>)
    ensures
        r == parse_u32_text(s@),
{
    let n = s.unicode_len();
    let start: usize = if n > 0 && s.get_char(0) == '+' { 1 } else { 0 };
    let digits = s.substring_char(start, n);
    proof {
        if n > 0 && s@[0] == '+' {
            assert(digits@ =~= s@.skip(1));
        } else {
            assert(digits@ =~= s@);
        }
    }
    let m = digits.unicode_len();
    if m == 0 {
        return None;
    }
    let mut v: u64 = 0;
    let mut i: usize = 0;
    assert(digits@.take(0) =~= Seq::<char>::empty());
    while i < m
        invariant
            m == digits@.len(),
            m > 0,
            parse_u32_text(s@) == (match digits_value(digits@) {
                Some(w) => if w <= u32::MAX { Some(w as u32) } else { None },
                None => None,
            }),
            i <= m,
            digits_value(digits@.take(i as int)) == Some(v as nat),
            v <= u32::MAX,
        decreases m - i,
    {
        let c = digits.get_char(i);
        proof {
            lemma_digits_value_step(digits@, i as int);
        }
        if c < '0' || c > '9' {
            proof {
                if digits_value(digits@) is Some {
                    lemma_digits_value_monotone(digits@, i + 1);
                }
            }
            return None;
        }
        let d = (c as u32 - '0' as u32) as u64;
        let next = 10 * v + d;
        if next > u32::MAX as u64 {
            proof {
                if digits_value(digits@) is Some {
                    lemma_digits_value_monotone(digits@, i + 1);
                }
            }
            return None;
        }
        v = next;
        i = i + 1;
    }
    assert(digits@.take(m as int) =~= digits@);
    Some(v as u32)
}

/// The daemon pid that a pid file's content records: its trimmed text parsed
/// as a `u32`.
pub fn parse_pid(content: &str) -> (r: Option<u32>)
    ensures
        r == parse_u32_text(trimmed(content@)),
{
    parse_u32(trim(content))
}


/// A text with no white space at either end is its own trimmed text.
proof fn lemma_trim_identity(t: Seq<char>)
    requires
        t.len() > 0 ==> !is_white_space(t[0]) && !is_white_space(t.last()),
    ensures
        trimmed(t) == t,
{
}

/// Law: the token file that holds a fresh token gives that token back, to
/// the daemon (`stored_token`) and to the client (`client_token`) alike.
pub proof fn lemma_token_round_trip(token: Seq<char>)
    requires
        token.len() == TOKEN_LEN,
        forall|i: int| 0 <= i < token.len() ==> is_token_char(#[trigger] token[i]),
    ensures
        trimmed(token) == token,
        stored_token_text(token) == Some(token),
{
    assert(is_token_char(token[0]));
    assert(is_token_char(token[token.len() - 1]));
    lemma_trim_identity(token);
}

proof fn lemma_digit_value_of_char(d: nat)
    requires
        d < 10,
    ensures
        digit_value(digit_char(d)) == Some(d),
        '0' <= digit_char(d) && digit_char(d) <= '9',
{
    if d == 0 {} else if d == 1 {} else if d == 2 {} else if d == 3 {} else if d == 4 {}
    else if d == 5 {} else if d == 6 {} else if d == 7 {} else if d == 8 {} else {}
}

proof fn lemma_digits_of_decimal(n: nat)
    ensures
        digits_value(decimal(n)) == Some(n),
        decimal(n).len() > 0,
        '0' <= decimal(n)[0] && decimal(n)[0] <= '9',
        '0' <= decimal(n).last() && decimal(n).last() <= '9',
    decreases n,
{
    if n >= 10 {
        lemma_digits_of_decimal(n / 10);
        let d = decimal(n);
        lemma_digit_value_of_char(n % 10);
        assert(d.drop_last() =~= decimal(n / 10));
        assert(d[0] == decimal(n / 10)[0]);
        assert(10 * (n / 10) + n % 10 == n);
        assert(d.last() == digit_char(n % 10));
        assert(digits_value(d) == Some(10 * (n / 10) + n % 10));
    } else {
        lemma_digit_value_of_char(n);
        let d = decimal(n);
        assert(d.last() == digit_char(n));
        assert(digits_value(d.drop_last()) == Some(0nat));
        assert(decimal(n) =~= seq![digit_char(n)]);
        assert(decimal(n).drop_last() =~= Seq::<char>::empty());
    }
}

/// Law: the pid that the daemon's start records (its decimal text) is the
/// pid that reading the pid file gives back.
pub proof fn lemma_pid_round_trip(pid: u32)
    ensures
        parse_u32_text(trimmed(decimal(pid as nat))) == Some(pid),
{
    let d = decimal(pid as nat);
    lemma_digits_of_decimal(pid as nat);
    lemma_trim_identity(d);
}

} // verus!
