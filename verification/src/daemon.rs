//! Decisions of the daemon: who may use the HTTP routes, which action a
//! request names, what the health route reports, and what each message of the
//! FigCli plugin calls for. The daemon's sockets and tasks act on them.

use vstd::prelude::*;
use crate::cli::Json;
use crate::cmds::{opt_string_text, text_or};
use crate::json::{js_string, js_string_array, json_quote, json_string_array, texts_of};
use crate::parsing::{as_str, as_u64, field_of, field_value, get_field, take_field, parse_json, parsed_json, str_of, u64_of};
use crate::text::{contains_text, lemma_contains_mid, decimal, is_prefix, same_text, starts_with_text, u64_text};

verus! {

/// `:` followed by one or more decimal digits (a port).
pub open spec fn is_port_suffix(p: Seq<char>) -> bool {
    p.len() >= 2 && p[0] == ':' && forall|i: int| 1 <= i < p.len() ==> '0' <= #[trigger] p[i] <= '9'
}

/// `host` is `name`, optionally followed by `:<port>`.
pub open spec fn names_host(host: Seq<char>, name: Seq<char>) -> bool {
    host == name || (is_prefix(name, host) && is_port_suffix(host.skip(name.len() as int)))
}

/// The host header names this machine: it is exactly `localhost` or
/// `127.0.0.1`, optionally with a port (guards against DNS rebinding).
pub open spec fn host_allowed(host: Seq<char>) -> bool {
    names_host(host, "localhost"@) || names_host(host, "127.0.0.1"@)
}

/// Whether `host` is `name`, optionally followed by `:<port>`.
fn names_host_exec(host: &str, name: &str) -> (r: bool)
    ensures
        r == names_host(host@, name@),
{
    if same_text(host, name) {
        return true;
    }
    if !starts_with_text(host, name) {
        return false;
    }
    let n = host.unicode_len();
    let k = name.unicode_len();
    if n - k < 2 || host.get_char(k) != ':' {
        proof {
            if n >= k + 2 {
                assert(host@.skip(k as int)[0] == host@[k as int]);
            }
        }
        return false;
    }
    let mut i: usize = k + 1;
    while i < n
        invariant
            n == host@.len(),
            k == name@.len(),
            host@ != name@,
            k + 1 <= i <= n,
            forall|j: int| k + 1 <= j < i ==> '0' <= #[trigger] host@[j] <= '9',
        decreases n - i,
    {
        let c = host.get_char(i);
        if !('0' <= c && c <= '9') {
            proof {
                let p = host@.skip(k as int);
                assert(p[i - k] == c);
                assert(!is_port_suffix(p));
            }
            return false;
        }
        i = i + 1;
    }
    proof {
        let p = host@.skip(k as int);
        assert forall|j: int| 1 <= j < p.len() implies '0' <= #[trigger] p[j] <= '9' by {
            assert(p[j] == host@[j + k]);
        }
        assert(p[0] == host@[k as int]);
    }
    true
}

/// The outcome of the two checks on a request: the host header (when there
/// is one) must name this machine, and the token header (empty when absent)
/// must equal the daemon's token.
pub open spec fn auth_outcome(host: Option<Seq<char>>, token: Option<Seq<char>>, expected: Seq<char>) -> Result<(), Seq<char>> {
    if host matches Some(h) && !host_allowed(h) {
        Err("Invalid host header"@)
    } else if (match token { Some(t) => t, None => Seq::empty() }) != expected {
        Err("Invalid or missing token"@)
    } else {
        Ok(())
    }
}

/// Checks a request's `host` and `x-daemon-token` headers (as text, when
/// present and readable) against the daemon's token.
pub fn check_auth(host: Option<&str>, token: Option<&str>, expected: &str) -> (r: Result<(), String>)
    ensures
        match auth_outcome(
            match host { Some(h) => Some(h@), None => None },
            match token { Some(t) => Some(t@), None => None },
            expected@,
        ) {
            Ok(()) => r is Ok,
            Err(m) => r matches Err(e) && e@ == m,
        },
{
    if let Some(h) = host {
        let ok = names_host_exec(h, "localhost") || names_host_exec(h, "127.0.0.1");
        if !ok {
            return Err(String::from_str("Invalid host header"));
        }
    }
    let given: &str = match token {
        Some(t) => t,
        None => "",
    };
    proof {
        reveal_strlit("");
        assert(""@ =~= Seq::<char>::empty());
    }
    if !same_text(given, expected) {
        return Err(String::from_str("Invalid or missing token"));
    }
    Ok(())
}

/// `Unauthorized: <reason>`, the error body of a refused request.
pub fn unauthorized_message(reason: &str) -> (r: String)
    ensures
        r@ == "Unauthorized: "@ + reason@,
{
    let mut s = String::from_str("Unauthorized: ");
    s.append(reason);
    s
}

/// The `status` that `/health` reports.
pub fn health_status(plugin_connected: bool) -> (r: &'static str)
    ensures
        r@ == if plugin_connected { "ok"@ } else { "disconnected"@ },
{
    if plugin_connected { "ok" } else { "disconnected" }
}

/// The actions of `/exec`.
#[derive(PartialEq, Eq, Structural, Debug)]
pub enum ExecAction {
    Eval,
    Render,
    RenderBatch,
}

/// The action that `/exec` takes for an `action` field (empty when absent),
/// or its error text.
pub open spec fn exec_action_of(action: Seq<char>) -> Result<ExecAction, Seq<char>> {
    if action == "eval"@ {
        Ok(ExecAction::Eval)
    } else if action == "render"@ {
        Ok(ExecAction::Render)
    } else if action == "render-batch"@ {
        Ok(ExecAction::RenderBatch)
    } else {
        Err("Unknown action: "@ + action)
    }
}

/// Dispatches an `/exec` request on its action.
pub fn exec_action(action: &str) -> (r: Result<ExecAction, String>)
    ensures
        match exec_action_of(action@) {
            Ok(a) => r == Ok::<ExecAction, String>(a),
            Err(m) => r matches Err(e) && e@ == m,
        },
{
    if same_text(action, "eval") {
        Ok(ExecAction::Eval)
    } else if same_text(action, "render") {
        Ok(ExecAction::Render)
    } else if same_text(action, "render-batch") {
        Ok(ExecAction::RenderBatch)
    } else {
        let mut s = String::from_str("Unknown action: ");
        s.append(action);
        Err(s)
    }
}

/// What a `/exec` request asks for, read from its JSON payload.
pub enum ExecCall {
    /// Run `code` in the plugin.
    Eval { code: String },
    /// Render one JSX string.
    Render { jsx: String, collection: Option<String> },
    /// Render several JSX strings side by side (or stacked when `vertical`).
    RenderBatch { jsx_array: Vec<String>, vertical: bool, collection: Option<String> },
}

/// The strings among `items`, in order (other values are dropped).
pub open spec fn strings_in(items: Seq<Json>) -> Seq<Seq<char>>
    decreases items.len(),
{
    if items.len() == 0 {
        Seq::empty()
    } else {
        let rest = strings_in(items.drop_last());
        match items.last() {
            Json::Str(s) => rest.push(s@),
            _ => rest,
        }
    }
}

/// The strings of an array value (none for anything else).
pub open spec fn string_items(j: Option<Json>) -> Seq<Seq<char>> {
    match j {
        Some(Json::Array(items)) => strings_in(items@),
        _ => Seq::empty(),
    }
}

/// A boolean value, `false` for anything else.
pub open spec fn bool_or_false(j: Option<Json>) -> bool {
    match j {
        Some(Json::Bool(b)) => b,
        _ => false,
    }
}

/// The call a `/exec` payload makes: its `action` (empty when absent or not a
/// string) chooses it; `code` and `jsx` are empty when absent; non-strings
/// are dropped from `jsxArray`; `vertical` is false unless it is `true`.
pub open spec fn exec_call_ok(p: Json, r: Result<ExecCall, String>) -> bool {
    match exec_action_of(text_or(str_of(field_of(p, "action"@)), Seq::empty())) {
        Err(m) => r matches Err(e) && e@ == m,
        Ok(ExecAction::Eval) => r matches Ok(ExecCall::Eval { code }) && code@ == text_or(
            str_of(field_of(p, "code"@)),
            Seq::empty(),
        ),
        Ok(ExecAction::Render) => r matches Ok(ExecCall::Render { jsx, collection })
            && jsx@ == text_or(str_of(field_of(p, "jsx"@)), Seq::empty())
            && opt_string_text(collection) == str_of(field_of(p, "collection"@)),
        Ok(ExecAction::RenderBatch) => r matches Ok(ExecCall::RenderBatch { jsx_array, vertical, collection })
            && texts_of(jsx_array@) == string_items(field_of(p, "jsxArray"@))
            && vertical == bool_or_false(field_of(p, "vertical"@))
            && opt_string_text(collection) == str_of(field_of(p, "collection"@)),
    }
}

fn text_field(p: &Json, key: &str) -> (r: String)
    ensures
        r@ == text_or(str_of(field_of(*p, key@)), Seq::empty()),
{
    match as_str(get_field(p, key)) {
        Some(t) => t,
        None => String::new(),
    }
}

fn string_items_of(j: Option<&Json>) -> (r: Vec<String>)
    ensures
        texts_of(r@) == string_items(match j { Some(v) => Some(*v), None => None }),
{
    let mut out: Vec<String> = Vec::new();
    match j {
        Some(Json::Array(items)) => {
            let n = items.len();
            let mut i: usize = 0;
            assert(items@.take(0) =~= Seq::<Json>::empty());
            assert(texts_of(out@) =~= Seq::<Seq<char>>::empty());
            while i < n
                invariant
                    n == items@.len(),
                    i <= n,
                    j matches Some(x) && *x == Json::Array(*items),
                    texts_of(out@) == strings_in(items@.take(i as int)),
                decreases n - i,
            {
                assert(items@.take(i + 1).drop_last() =~= items@.take(i as int));
                match &items[i] {
                    Json::Str(s) => {
                        let ghost before = out@;
                        out.push(s.clone());
                        assert(texts_of(out@) =~= texts_of(before).push(s@));
                    },
                    _ => {},
                }
                i = i + 1;
            }
            assert(items@.take(n as int) =~= items@);
            out
        },
        _ => out,
    }
}

/// Reads what a `/exec` request asks for from its payload (the `gap` number is
/// read by the server itself).
pub fn exec_call(payload: &Json) -> (r: Result<ExecCall, String>)
    ensures
        exec_call_ok(*payload, r),
{
    let action = text_field(payload, "action");
    match exec_action(action.as_str()) {
        Err(m) => Err(m),
        Ok(ExecAction::Eval) => Ok(ExecCall::Eval { code: text_field(payload, "code") }),
        Ok(ExecAction::Render) => Ok(ExecCall::Render {
            jsx: text_field(payload, "jsx"),
            collection: as_str(get_field(payload, "collection")),
        }),
        Ok(ExecAction::RenderBatch) => {
            let vertical = match get_field(payload, "vertical") {
                Some(Json::Bool(b)) => *b,
                _ => false,
            };
            Ok(ExecCall::RenderBatch {
                jsx_array: string_items_of(get_field(payload, "jsxArray")),
                vertical,
                collection: as_str(get_field(payload, "collection")),
            })
        },
    }
}

/// `{"action":"eval","code":<code>,"id":<id>}`, the message that asks the
/// plugin to run `code` (keys in the order serde_json's map writes them).
pub open spec fn eval_message_js(id: u64, code: Seq<char>) -> Seq<char> {
    "{\"action\":\"eval\",\"code\":"@ + json_quote(code) + ",\"id\":"@ + decimal(id as nat) + "}"@
}

/// `{"action":"eval-batch","codes":[..],"id":<id>}`, the message that asks
/// the plugin to run several scripts.
pub open spec fn eval_batch_message_js(id: u64, codes: Seq<Seq<char>>) -> Seq<char> {
    "{\"action\":\"eval-batch\",\"codes\":"@ + json_string_array(codes) + ",\"id\":"@ + decimal(id as nat)
        + "}"@
}

/// The message that asks the plugin to run `code` as request `id`.
pub fn eval_message(id: u64, code: &str) -> (r: String)
    ensures
        r@ == eval_message_js(id, code@),
{
    let mut s = String::from_str("{\"action\":\"eval\",\"code\":");
    s.append(js_string(code).as_str());
    s.append(",\"id\":");
    s.append(u64_text(id).as_str());
    s.append("}");
    s
}

/// The message that asks the plugin to run `codes` as request `id`.
pub fn eval_batch_message(id: u64, codes: &[String]) -> (r: String)
    ensures
        r@ == eval_batch_message_js(id, texts_of(codes@)),
{
    let mut s = String::from_str("{\"action\":\"eval-batch\",\"codes\":");
    s.append(js_string_array(codes).as_str());
    s.append(",\"id\":");
    s.append(u64_text(id).as_str());
    s.append("}");
    s
}

proof fn lemma_message_layout(head: Seq<char>, key: Seq<char>, body: Seq<char>, d: Seq<char>)
    ensures
        contains_text(head + key + body + ",\"id\":"@ + d + "}"@, key + body + ","@),
        contains_text(head + key + body + ",\"id\":"@ + d + "}"@, "\"id\":"@ + d + "}"@),
{
    reveal_strlit(",\"id\":");
    reveal_strlit("\"id\":");
    reveal_strlit(",");
    assert(",\"id\":"@ =~= ","@ + "\"id\":"@);
    let m = head + key + body + ",\"id\":"@ + d + "}"@;
    let pc = key + body + ","@;
    let pi = "\"id\":"@ + d + "}"@;
    assert(m =~= head + pc + pi);
    lemma_contains_mid(head, pc, pi);
    assert(m =~= (head + pc) + pi + Seq::<char>::empty());
    lemma_contains_mid(head + pc, pi, Seq::<char>::empty());
}

/// Law: the message for request `id` carries `id` as its `id` and the script
/// (or scripts) to run as its `code` (or `codes`), so the plugin's reply
/// settles exactly that request.
pub proof fn lemma_eval_messages_carry_id_and_code(id: u64, code: Seq<char>, codes: Seq<Seq<char>>)
    ensures
        contains_text(eval_message_js(id, code), "\"code\":"@ + json_quote(code) + ","@),
        contains_text(eval_message_js(id, code), "\"id\":"@ + decimal(id as nat) + "}"@),
        contains_text(eval_batch_message_js(id, codes), "\"codes\":"@ + json_string_array(codes) + ","@),
        contains_text(eval_batch_message_js(id, codes), "\"id\":"@ + decimal(id as nat) + "}"@),
{
    reveal_strlit("{\"action\":\"eval\",\"code\":");
    reveal_strlit("{\"action\":\"eval\",");
    reveal_strlit("{\"action\":\"eval-batch\",\"codes\":");
    reveal_strlit("{\"action\":\"eval-batch\",");
    reveal_strlit("\"code\":");
    reveal_strlit("\"codes\":");
    let q = json_quote(code);
    let a = json_string_array(codes);
    let d = decimal(id as nat);
    assert("{\"action\":\"eval\",\"code\":"@ =~= "{\"action\":\"eval\","@ + "\"code\":"@);
    assert("{\"action\":\"eval-batch\",\"codes\":"@ =~= "{\"action\":\"eval-batch\","@ + "\"codes\":"@);
    lemma_message_layout("{\"action\":\"eval\","@, "\"code\":"@, q, d);
    lemma_message_layout("{\"action\":\"eval-batch\","@, "\"codes\":"@, a, d);
    assert(eval_message_js(id, code) =~= "{\"action\":\"eval\","@ + "\"code\":"@ + q + ",\"id\":"@ + d + "}"@);
    assert(eval_batch_message_js(id, codes) =~= "{\"action\":\"eval-batch\","@ + "\"codes\":"@ + a + ",\"id\":"@ + d + "}"@);
}

/// What the command line makes of the daemon's reply to `/exec`: a body that
/// is not JSON is a bad response; a successful status gives the body's
/// `result` (null when absent); any other status fails with the body's
/// `error` text, or `unknown daemon error`.
pub open spec fn daemon_reply_ok(success: bool, body: Seq<char>, r: Result<Json, String>) -> bool {
    match parsed_json(body) {
        None => r matches Err(m) && m@ == "bad daemon response: error decoding response body"@,
        Some(j) => if success {
            r matches Ok(v) && v == or_null(field_of(j, "result"@))
        } else {
            r matches Err(m) && m@ == text_or(str_of(field_of(j, "error"@)), "unknown daemon error"@)
        },
    }
}

/// Reads the daemon's reply to `/exec` (`success`: the HTTP status was a
/// success; `body`: the reply's text).
pub fn daemon_reply(success: bool, body: &str) -> (r: Result<Json, String>)
    ensures
        daemon_reply_ok(success, body@, r),
{
    match parse_json(body) {
        None => Err(String::from_str("bad daemon response: error decoding response body")),
        Some(j) => if success {
            let ghost whole = j;
            match j {
                Json::Object(mut entries) => match take_field(&mut entries, "result") {
                    Some(v) => Ok(v),
                    None => Ok(Json::Null),
                },
                _ => Ok(Json::Null),
            }
        } else {
            match as_str(get_field(&j, "error")) {
                Some(m) => Err(m),
                None => Err(String::from_str("unknown daemon error")),
            }
        },
    }
}

/// `Plugin execution timeout (<secs>s)`.
pub fn timeout_message(secs: u64) -> (r: String)
    ensures
        r@ == "Plugin execution timeout ("@ + decimal(secs as nat) + "s)"@,
{
    let mut s = String::from_str("Plugin execution timeout (");
    s.append(u64_text(secs).as_str());
    s.append("s)");
    s
}

/// The fields of a plugin message that the daemon reads: `type`, `version`,
/// `id` and `error` when present with the expected JSON type, and `result`
/// and `results` when present.
pub struct PluginMessage {
    pub kind: Option<String>,
    pub version: Option<String>,
    pub id: Option<u64>,
    pub error: Option<String>,
    pub result: Option<Json>,
    pub results: Option<Json>,
}

/// How a pending request is settled.
#[derive(Debug)]
pub enum Settle {
    /// With the error text.
    Failed(String),
    /// With a value: the message's `result`, or its `results` for a batch
    /// (null when absent).
    Value(Json),
}

/// A JSON value, or null when there is none.
pub open spec fn or_null(o: Option<Json>) -> Json {
    match o {
        Some(j) => j,
        None => Json::Null,
    }
}

/// The message that a JSON value read from the plugin carries.
pub open spec fn plugin_message_fields(j: Json, m: PluginMessage) -> bool {
    &&& opt_string_text(m.kind) == str_of(field_of(j, "type"@))
    &&& opt_string_text(m.version) == str_of(field_of(j, "version"@))
    &&& m.id == u64_of(field_of(j, "id"@))
    &&& opt_string_text(m.error) == str_of(field_of(j, "error"@))
    &&& m.result == field_of(j, "result"@)
    &&& m.results == field_of(j, "results"@)
}

/// Reads the fields the daemon needs from a message of the plugin.
pub fn plugin_message(j: Json) -> (m: PluginMessage)
    ensures
        plugin_message_fields(j, m),
{
    let kind = as_str(get_field(&j, "type"));
    let version = as_str(get_field(&j, "version"));
    let id = as_u64(get_field(&j, "id"));
    let error = as_str(get_field(&j, "error"));
    let ghost whole = j;
    match j {
        Json::Object(mut entries) => {
            let ghost e0 = entries@;
            assert(whole == Json::Object(entries));
            let result = take_field(&mut entries, "result");
            assert("results"@ != "result"@) by {
                reveal_strlit("result");
                reveal_strlit("results");
                assert("results"@.len() != "result"@.len());
            }
            assert(field_value(entries@, "results"@) == field_value(e0, "results"@));
            let results = take_field(&mut entries, "results");
            PluginMessage { kind, version, id, error, result, results }
        },
        _ => PluginMessage { kind, version, id, error, result: None, results: None },
    }
}

/// Reads a text frame from the plugin: `None` when it is not JSON (the frame
/// is then ignored), else the fields of the message.
pub fn read_plugin_message(text: &str) -> (r: Option<PluginMessage>)
    ensures
        match parsed_json(text@) {
            Some(j) => r matches Some(m) && plugin_message_fields(j, m),
            None => r is None,
        },
{
    match parse_json(text) {
        Some(j) => Some(plugin_message(j)),
        None => None,
    }
}

/// What the daemon does with a plugin message.
#[derive(Debug)]
pub enum PluginAction {
    /// Log the plugin's version.
    LogVersion(String),
    /// Answer a ping with `{"type":"pong"}`.
    SendPong,
    /// Settle the pending request `id`, if there is one.
    Settle(u64, Settle),
    /// Nothing.
    Ignore,
}

/// The text of an optional `String`, or `d`.
pub open spec fn text_or_default(o: Option<String>, d: Seq<char>) -> Seq<char> {
    match o {
        Some(s) => s@,
        None => d,
    }
}

/// The reaction to a plugin message: `hello` logs the version (`?` when
/// absent), `ping` is answered, `result` and `batch-result` with an id settle
/// that request (a `result` with an error fails it), anything else is
/// ignored.
pub open spec fn plugin_action_ok(msg: PluginMessage, a: PluginAction) -> bool {
    let kind = text_or_default(msg.kind, Seq::empty());
    if kind == "hello"@ {
        a matches PluginAction::LogVersion(v) && v@ == text_or_default(msg.version, "?"@)
    } else if kind == "ping"@ {
        a == PluginAction::SendPong
    } else if kind == "result"@ && msg.id is Some {
        match msg.error {
            Some(e) => a matches PluginAction::Settle(id, Settle::Failed(m)) && id == msg.id->0 && m@ == e@,
            None => a == PluginAction::Settle(msg.id->0, Settle::Value(or_null(msg.result))),
        }
    } else if kind == "batch-result"@ && msg.id is Some {
        a == PluginAction::Settle(msg.id->0, Settle::Value(or_null(msg.results)))
    } else {
        a == PluginAction::Ignore
    }
}

/// Decides what to do with a message from the plugin.
pub fn plugin_action(msg: PluginMessage) -> (a: PluginAction)
    ensures
        plugin_action_ok(msg, a),
{
    let ghost m = msg;
    let kind: String = match msg.kind {
        Some(k) => k,
        None => String::new(),
    };
    if same_text(kind.as_str(), "hello") {
        let v = match msg.version {
            Some(v) => v,
            None => String::from_str("?"),
        };
        PluginAction::LogVersion(v)
    } else if same_text(kind.as_str(), "ping") {
        PluginAction::SendPong
    } else if same_text(kind.as_str(), "result") && msg.id.is_some() {
        let id = msg.id.unwrap();
        match msg.error {
            Some(e) => PluginAction::Settle(id, Settle::Failed(e)),
            None => PluginAction::Settle(id, Settle::Value(match msg.result {
                Some(j) => j,
                None => Json::Null,
            })),
        }
    } else if same_text(kind.as_str(), "batch-result") && msg.id.is_some() {
        PluginAction::Settle(msg.id.unwrap(), Settle::Value(match msg.results {
            Some(j) => j,
            None => Json::Null,
        }))
    } else {
        PluginAction::Ignore
    }
}


/// The token a request presents: its header's text, empty when absent.
pub open spec fn presented_token(token: Option<Seq<char>>) -> Seq<char> {
    match token {
        Some(t) => t,
        None => Seq::empty(),
    }
}

/// The host header is absent or names this machine.
pub open spec fn host_ok_or_absent(host: Option<Seq<char>>) -> bool {
    match host {
        Some(h) => host_allowed(h),
        None => true,
    }
}

/// Law: a request is accepted exactly when its host (if any) names this
/// machine and the token it presents is the daemon's; a foreign host is
/// refused as such before its token is looked at.
pub proof fn lemma_auth_accepts_exactly(host: Option<Seq<char>>, token: Option<Seq<char>>, expected: Seq<char>)
    ensures
        auth_outcome(host, token, expected) is Ok <==> host_ok_or_absent(host) && presented_token(token) == expected,
        !host_ok_or_absent(host) ==> auth_outcome(host, token, expected) == Err::<(), Seq<char>>("Invalid host header"@),
{
}

} // verus!
