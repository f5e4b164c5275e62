//! The daemon protocol: dialect negotiation, request tagging, the
//! session-token handshake, argument translation and reply interpretation.
use vstd::prelude::*;
use vstd::string::*;

use crate::names::{legacy_session_field_name, legacy_session_name, legacy_torrent_field_name,
    legacy_torrent_name};
use crate::text::{ascii_lower, contains, contains_seq, i64_to_string, signed_decimal, str_eq,
    to_ascii_lower, u64_to_string, decimal};
use crate::wire::{entries_view, entry, WireEntry, WireSpec, WireValue};

verus! {

/// The two wire dialects a daemon may speak.
#[derive(Clone, Copy, Debug, PartialEq, Eq, Structural)]
pub enum RpcProtocol {
    /// JSON-RPC 2.0 with underscore names.
    Json,
    /// `{method, arguments, tag}` with hyphenated and camelCase names.
    Legacy,
}

/// The remote procedures this client calls.
#[derive(Clone, Copy, Debug, PartialEq, Eq, Structural)]
pub enum RpcMethod {
    SessionGet,
    SessionSet,
    SessionStats,
    TorrentGet,
    TorrentAdd,
    TorrentRemove,
    TorrentStart,
    TorrentStop,
}

pub open spec fn method_name(m: RpcMethod, p: RpcProtocol) -> Seq<char> {
    match p {
        RpcProtocol::Json => match m {
            RpcMethod::SessionGet => "session_get"@,
            RpcMethod::SessionSet => "session_set"@,
            RpcMethod::SessionStats => "session_stats"@,
            RpcMethod::TorrentGet => "torrent_get"@,
            RpcMethod::TorrentAdd => "torrent_add"@,
            RpcMethod::TorrentRemove => "torrent_remove"@,
            RpcMethod::TorrentStart => "torrent_start"@,
            RpcMethod::TorrentStop => "torrent_stop"@,
        },
        RpcProtocol::Legacy => match m {
            RpcMethod::SessionGet => "session-get"@,
            RpcMethod::SessionSet => "session-set"@,
            RpcMethod::SessionStats => "session-stats"@,
            RpcMethod::TorrentGet => "torrent-get"@,
            RpcMethod::TorrentAdd => "torrent-add"@,
            RpcMethod::TorrentRemove => "torrent-remove"@,
            RpcMethod::TorrentStart => "torrent-start"@,
            RpcMethod::TorrentStop => "torrent-stop"@,
        },
    }
}

/// The method's name on the wire in the given dialect.
pub fn method_for_protocol(method: RpcMethod, protocol: RpcProtocol) -> (r: &'static str)
    ensures
        r@ == method_name(method, protocol),
{
    match protocol {
        RpcProtocol::Json => match method {
            RpcMethod::SessionGet => "session_get",
            RpcMethod::SessionSet => "session_set",
            RpcMethod::SessionStats => "session_stats",
            RpcMethod::TorrentGet => "torrent_get",
            RpcMethod::TorrentAdd => "torrent_add",
            RpcMethod::TorrentRemove => "torrent_remove",
            RpcMethod::TorrentStart => "torrent_start",
            RpcMethod::TorrentStop => "torrent_stop",
        },
        RpcProtocol::Legacy => match method {
            RpcMethod::SessionGet => "session-get",
            RpcMethod::SessionSet => "session-set",
            RpcMethod::SessionStats => "session-stats",
            RpcMethod::TorrentGet => "torrent-get",
            RpcMethod::TorrentAdd => "torrent-add",
            RpcMethod::TorrentRemove => "torrent-remove",
            RpcMethod::TorrentStart => "torrent-start",
            RpcMethod::TorrentStop => "torrent-stop",
        },
    }
}

// ---------------------------------------------------------------------------
// Argument translation for the legacy dialect

pub open spec fn map_names(names: Seq<Seq<char>>, session: bool) -> Seq<Seq<char>> {
    names.map_values(
        |n: Seq<char>|
            if session {
                legacy_session_name(n)
            } else {
                legacy_torrent_name(n)
            },
    )
}

/// One argument member as the legacy dialect spells it: `fields` lists of
/// `session_get` and `torrent_get` in legacy names, `session_set` keys in
/// legacy names with the encryption mode in its legacy spelling, and the
/// data-removal flag of `torrent_remove` hyphenated.
pub open spec fn legacy_entry(m: RpcMethod, e: (Seq<char>, WireSpec)) -> (Seq<char>, WireSpec) {
    match m {
        RpcMethod::SessionGet | RpcMethod::TorrentGet => if e.0 == "fields"@ {
            match e.1 {
                WireSpec::TextList(ns) => (
                    e.0,
                    WireSpec::TextList(map_names(ns, m == RpcMethod::SessionGet)),
                ),
                _ => e,
            }
        } else {
            e
        },
        RpcMethod::SessionSet => (
            legacy_session_name(e.0),
            if e.0 == "encryption"@ && e.1 == WireSpec::Text("allowed"@) {
                WireSpec::Text("tolerated"@)
            } else {
                e.1
            },
        ),
        RpcMethod::TorrentRemove => if e.0 == "delete_local_data"@ {
            ("delete-local-data"@, e.1)
        } else {
            e
        },
        _ => e,
    }
}

/// The arguments as the given dialect spells them.
pub open spec fn translated(p: RpcProtocol, m: RpcMethod, es: Seq<(Seq<char>, WireSpec)>) -> Seq<
    (Seq<char>, WireSpec),
> {
    if p == RpcProtocol::Json {
        es
    } else {
        es.map_values(|e: (Seq<char>, WireSpec)| legacy_entry(m, e))
    }
}

/// The character sequences of a list of strings.
pub open spec fn strings_view(v: Seq<String>) -> Seq<Seq<char>> {
    v.map_values(|s: String| s@)
}

fn translate_names(names: &Vec<String>, session: bool) -> (r: Vec<String>)
    ensures
        strings_view(r@) == map_names(strings_view(names@), session),
{
    let mut out: Vec<String> = Vec::new();
    let mut i: usize = 0;
    while i < names.len()
        invariant
            i <= names@.len(),
            out@.len() == i,
            strings_view(out@) == map_names(
                strings_view(names@),
                session,
            ).subrange(0, i as int),
        decreases names@.len() - i,
    {
        let n = if session {
            legacy_session_field_name(names[i].as_str())
        } else {
            legacy_torrent_field_name(names[i].as_str())
        };
        let ghost prev = out@;
        out.push(n);
        assert(strings_view(names@)[i as int] == names@[i as int]@);
        assert(out@ == prev.push(n));
        assert(strings_view(out@)[i as int] == n@);
        assert(map_names(strings_view(names@), session)[i as int] == n@);
        assert forall|k: int| 0 <= k < i implies strings_view(out@)[k] == strings_view(prev)[k] by {
            assert(out@[k] == prev[k]);
        }
        assert(strings_view(out@) =~= map_names(
            strings_view(names@),
            session,
        ).subrange(0, i + 1));
        i = i + 1;
    }
    assert(map_names(strings_view(names@), session).subrange(
        0,
        names@.len() as int,
    ) =~= map_names(strings_view(names@), session));
    out
}

fn translate_entry(method: RpcMethod, e: WireEntry) -> (r: WireEntry)
    ensures
        r@ == legacy_entry(method, e@),
{
    match method {
        RpcMethod::SessionGet | RpcMethod::TorrentGet => {
            if str_eq(e.key.as_str(), "fields") {
                match e.value {
                    WireValue::TextList(ns) => WireEntry {
                        key: e.key,
                        value: WireValue::TextList(
                            translate_names(&ns, method == RpcMethod::SessionGet),
                        ),
                    },
                    other => WireEntry { key: e.key, value: other },
                }
            } else {
                e
            }
        },
        RpcMethod::SessionSet => {
            let key = legacy_session_field_name(e.key.as_str());
            let is_allowed = match &e.value {
                WireValue::Text(t) => str_eq(t.as_str(), "allowed"),
                _ => false,
            };
            let value = if str_eq(e.key.as_str(), "encryption") && is_allowed {
                WireValue::Text(String::from_str("tolerated"))
            } else {
                e.value
            };
            WireEntry { key, value }
        },
        RpcMethod::TorrentRemove => {
            if str_eq(e.key.as_str(), "delete_local_data") {
                entry("delete-local-data", e.value)
            } else {
                e
            }
        },
        _ => e,
    }
}

/// The arguments of a call as the given dialect spells them.
pub fn translate_arguments_for_protocol(
    protocol: RpcProtocol,
    method: RpcMethod,
    arguments: Option<Vec<WireEntry>>,
) -> (r: Option<Vec<WireEntry>>)
    ensures
        match arguments {
            None => r is None,
            Some(a) => r matches Some(b) && entries_view(b@) == translated(
                protocol,
                method,
                entries_view(a@),
            ),
        },
{
    match arguments {
        None => None,
        Some(args) => {
            if protocol == RpcProtocol::Json {
                return Some(args);
            }
            let ghost orig = args@;
            let n = args.len();
            let mut rest = args;
            let mut out: Vec<WireEntry> = Vec::new();
            let mut i: usize = 0;
            while i < n
                invariant
                    n == orig.len(),
                    i <= n,
                    rest@ == orig.subrange(i as int, n as int),
                    out@.len() == i,
                    entries_view(out@) == translated(protocol, method, entries_view(orig)).subrange(
                        0,
                        i as int,
                    ),
                    protocol == RpcProtocol::Legacy,
                decreases n - i,
            {
                let e = rest.remove(0);
                assert(e == orig[i as int]);
                assert(entries_view(orig)[i as int] == e@);
                let t = translate_entry(method, e);
                let ghost prev = out@;
                out.push(t);
                assert(entries_view(out@)[i as int] == t@);
                assert forall|k: int| 0 <= k < i implies entries_view(out@)[k] == entries_view(prev)[k] by {
                    assert(out@[k] == prev[k]);
                }
                assert(entries_view(out@) =~= translated(
                    protocol,
                    method,
                    entries_view(orig),
                ).subrange(0, i + 1));
                assert(rest@ =~= orig.subrange(i + 1, n as int));
                i = i + 1;
            }
            assert(translated(protocol, method, entries_view(orig)).subrange(0, n as int)
                =~= translated(protocol, method, entries_view(orig)));
            Some(out)
        },
    }
}

// ---------------------------------------------------------------------------
// Errors

/// Why a call failed.
#[derive(Debug)]
pub enum TransmissionError {
    /// The HTTP exchange itself failed; the text describes how.
    Http(String),
    /// The daemon answered 401.
    Authentication,
    /// The daemon answered 409 without a session token.
    Session,
    /// The daemon answered with another status outside 2xx.
    HttpStatus(u16),
    /// The daemon reported an error for the call.
    Rpc { code: i64, message: String, context: String },
    /// The reply could not be read.
    Parse(String),
}

pub open spec fn error_text(e: TransmissionError) -> Seq<char> {
    match e {
        TransmissionError::Http(t) => "http error: "@ + t@,
        TransmissionError::Authentication => "authentication failed"@,
        TransmissionError::Session => "session negotiation failed"@,
        TransmissionError::HttpStatus(c) => "unexpected http status "@ + decimal(c as nat),
        TransmissionError::Rpc { code, message, context } => "rpc error "@ + signed_decimal(
            code as int,
        ) + ": "@ + message@ + context@,
        TransmissionError::Parse(t) => "response parse error: "@ + t@,
    }
}

/// "method not found" as a JSON-RPC error code.
pub const METHOD_NOT_FOUND: i64 = -32601;

/// The error says the daemon does not know the method in this dialect.
pub open spec fn is_unknown_method(e: TransmissionError) -> bool {
    match e {
        TransmissionError::Rpc { code, message, .. } => code == METHOD_NOT_FOUND || contains_seq(
            ascii_lower(message@),
            "method not found"@,
        ) || contains_seq(ascii_lower(message@), "method name not recognized"@),
        _ => false,
    }
}

impl TransmissionError {
    /// The text shown to the user.
    pub fn describe(&self) -> (r: String)
        ensures
            r@ == error_text(*self),
    {
        match self {
            TransmissionError::Http(t) => {
                let mut s = String::from_str("http error: ");
                s.append(t.as_str());
                s
            },
            TransmissionError::Authentication => String::from_str("authentication failed"),
            TransmissionError::Session => String::from_str("session negotiation failed"),
            TransmissionError::HttpStatus(c) => {
                let mut s = String::from_str("unexpected http status ");
                let d = u64_to_string(*c as u64);
                s.append(d.as_str());
                s
            },
            TransmissionError::Rpc { code, message, context } => {
                let mut s = String::from_str("rpc error ");
                let d = i64_to_string(*code);
                s.append(d.as_str());
                s.append(": ");
                s.append(message.as_str());
                s.append(context.as_str());
                s
            },
            TransmissionError::Parse(t) => {
                let mut s = String::from_str("response parse error: ");
                s.append(t.as_str());
                s
            },
        }
    }
}

/// Whether a failed JSON-RPC call should be repeated in the legacy dialect.
pub fn should_retry_in_legacy(err: &TransmissionError) -> (r: bool)
    ensures
        r == is_unknown_method(*err),
{
    match err {
        TransmissionError::Rpc { code, message, .. } => {
            let normalized = to_ascii_lower(message.as_str());
            *code == METHOD_NOT_FOUND || contains(normalized.as_str(), "method not found")
                || contains(normalized.as_str(), "method name not recognized")
        },
        _ => false,
    }
}

// ---------------------------------------------------------------------------
// Session state: dialect flag, request tags and the session token

/// What the client remembers between calls.
pub struct RpcSession {
    session_id: Option<String>,
    counter: u64,
    use_json_rpc: bool,
}

pub struct SessionView {
    pub session_id: Option<Seq<char>>,
    pub counter: u64,
    pub use_json_rpc: bool,
}

impl View for RpcSession {
    type V = SessionView;

    closed spec fn view(&self) -> SessionView {
        SessionView {
            session_id: match self.session_id {
                Some(s) => Some(s@),
                None => None,
            },
            counter: self.counter,
            use_json_rpc: self.use_json_rpc,
        }
    }
}

/// Once the legacy dialect is chosen it stays chosen, and tags never go back.
pub open spec fn session_step(pre: SessionView, post: SessionView) -> bool {
    &&& (post.use_json_rpc ==> pre.use_json_rpc)
    &&& pre.counter <= post.counter
}

/// What to do after an HTTP status arrived.
#[derive(Debug)]
pub enum HttpStep {
    /// Send the same payload again, now with the stored token.
    Resend,
    /// The status is a success: read the body.
    ReadBody,
    /// The call failed.
    Fail(TransmissionError),
}

/// The HTTP status 409 (Conflict) that carries a new session token.
pub const STATUS_CONFLICT: u16 = 409;
/// The HTTP status 401 (Unauthorized).
pub const STATUS_UNAUTHORIZED: u16 = 401;

/// One request ready to be framed: method name and arguments as the dialect
/// spells them, and the request's tag.
#[derive(Debug)]
pub struct RpcRequest {
    pub protocol: RpcProtocol,
    pub method: &'static str,
    pub arguments: Option<Vec<WireEntry>>,
    pub tag: u64,
}

impl RpcSession {
    pub fn new() -> (r: Self)
        ensures
            r@.session_id is None,
            r@.counter == 1,
            r@.use_json_rpc,
    {
        RpcSession { session_id: None, counter: 1, use_json_rpc: true }
    }

    /// The dialect the next call starts in.
    pub fn protocol(&self) -> (r: RpcProtocol)
        ensures
            r == (if self@.use_json_rpc {
                RpcProtocol::Json
            } else {
                RpcProtocol::Legacy
            }),
    {
        if self.use_json_rpc {
            RpcProtocol::Json
        } else {
            RpcProtocol::Legacy
        }
    }

    /// The token to send in `X-Transmission-Session-Id`, once one was issued.
    pub fn session_header(&self) -> (r: Option<String>)
        ensures
            match r {
                Some(t) => self@.session_id == Some(t@),
                None => self@.session_id is None,
            },
    {
        self.session_id.clone()
    }

    /// A fresh tag; `None` once every 64-bit tag has been handed out.
    pub fn next_tag(&mut self) -> (r: Option<u64>)
        ensures
            session_step(old(self)@, final(self)@),
            final(self)@.use_json_rpc == old(self)@.use_json_rpc,
            final(self)@.session_id == old(self)@.session_id,
            old(self)@.counter < u64::MAX ==> r == Some(old(self)@.counter) && final(self)@.counter
                == old(self)@.counter + 1,
            old(self)@.counter == u64::MAX ==> r is None && final(self)@.counter == u64::MAX,
    {
        if self.counter == u64::MAX {
            None
        } else {
            let t = self.counter;
            self.counter = self.counter + 1;
            Some(t)
        }
    }

    /// Frames a call in the given dialect with a fresh tag.
    pub fn build_request(
        &mut self,
        protocol: RpcProtocol,
        method: RpcMethod,
        arguments: Option<Vec<WireEntry>>,
    ) -> (r: Option<RpcRequest>)
        ensures
            session_step(old(self)@, final(self)@),
            final(self)@.use_json_rpc == old(self)@.use_json_rpc,
            final(self)@.session_id == old(self)@.session_id,
            old(self)@.counter == u64::MAX <==> r is None,
            r matches Some(q) ==> {
                &&& q.protocol == protocol
                &&& q.method@ == method_name(method, protocol)
                &&& q.tag == old(self)@.counter
                &&& final(self)@.counter == q.tag + 1
                &&& match arguments {
                    None => q.arguments is None,
                    Some(a) => q.arguments matches Some(b) && entries_view(b@) == translated(
                        protocol,
                        method,
                        entries_view(a@),
                    ),
                }
            },
    {
        match self.next_tag() {
            None => None,
            Some(tag) => Some(
                RpcRequest {
                    protocol,
                    method: method_for_protocol(method, protocol),
                    arguments: translate_arguments_for_protocol(protocol, method, arguments),
                    tag,
                },
            ),
        }
    }

    /// Decides on an HTTP status: a 409 with a token stores it and asks for the
    /// same payload again; a 409 without one, a 401 or any other status outside
    /// 2xx fails; a 2xx status means the body is to be read.
    pub fn on_status(&mut self, status: u16, session_header: Option<String>) -> (r: HttpStep)
        ensures
            session_step(old(self)@, final(self)@),
            final(self)@.use_json_rpc == old(self)@.use_json_rpc,
            final(self)@.counter == old(self)@.counter,
            status == STATUS_CONFLICT && session_header is Some ==> r is Resend
                && final(self)@.session_id == Some(session_header->Some_0@),
            !(status == STATUS_CONFLICT && session_header is Some) ==> final(self)@.session_id
                == old(self)@.session_id,
            status == STATUS_CONFLICT && session_header is None ==> r matches HttpStep::Fail(
                TransmissionError::Session,
            ),
            status == STATUS_UNAUTHORIZED ==> r matches HttpStep::Fail(
                TransmissionError::Authentication,
            ),
            status != STATUS_CONFLICT && status != STATUS_UNAUTHORIZED && !(200 <= status <= 299)
                ==> (r matches HttpStep::Fail(TransmissionError::HttpStatus(c)) && c == status),
            200 <= status <= 299 ==> r is ReadBody,
    {
        if status == STATUS_CONFLICT {
            match session_header {
                Some(token) => {
                    self.session_id = Some(token);
                    HttpStep::Resend
                },
                None => HttpStep::Fail(TransmissionError::Session),
            }
        } else if status == STATUS_UNAUTHORIZED {
            HttpStep::Fail(TransmissionError::Authentication)
        } else if status < 200 || status > 299 {
            HttpStep::Fail(TransmissionError::HttpStatus(status))
        } else {
            HttpStep::ReadBody
        }
    }

    /// After a call in `protocol` failed with `err`: whether to repeat it in the
    /// legacy dialect. That happens only for a JSON-RPC call that the daemon did
    /// not know, and it switches the client to the legacy dialect for good.
    pub fn downgrade_after(&mut self, protocol: RpcProtocol, err: &TransmissionError) -> (r: bool)
        ensures
            session_step(old(self)@, final(self)@),
            final(self)@.counter == old(self)@.counter,
            final(self)@.session_id == old(self)@.session_id,
            r == (protocol == RpcProtocol::Json && is_unknown_method(*err)),
            r ==> !final(self)@.use_json_rpc,
            !r ==> final(self)@.use_json_rpc == old(self)@.use_json_rpc,
    {
        if protocol == RpcProtocol::Json && should_retry_in_legacy(err) {
            self.use_json_rpc = false;
            true
        } else {
            false
        }
    }
}

/// Along any run of session steps the client leaves JSON-RPC at most once:
/// once a state speaks the legacy dialect, every later state does too.
pub proof fn lemma_dialect_monotonic(states: Seq<SessionView>, i: int, j: int)
    requires
        forall|k: int| 0 <= k < states.len() - 1 ==> session_step(#[trigger] states[k], states[k + 1]),
        0 <= i <= j < states.len(),
        !states[i].use_json_rpc,
    ensures
        !states[j].use_json_rpc,
    decreases j - i,
{
    if i < j {
        assert(session_step(states[i], states[i + 1]));
        lemma_dialect_monotonic(states, i + 1, j);
    }
}

/// Two tags handed out one after the other, with any session steps between
/// them, strictly increase.
pub proof fn lemma_tags_increase(
    s0: SessionView,
    s1: SessionView,
    s2: SessionView,
    s3: SessionView,
    t1: u64,
    t2: u64,
)
    requires
        t1 == s0.counter && s1.counter == t1 + 1,
        session_step(s1, s2),
        t2 == s2.counter && s3.counter == t2 + 1,
    ensures
        t1 < t2,
{
}

// ---------------------------------------------------------------------------
// Replies

/// What an error detail (`data` of a JSON-RPC error, `arguments` of a failed
/// legacy call) holds, as far as the message to the user needs it.
#[derive(Debug)]
pub struct ContextProbe {
    /// The value is an object.
    pub is_object: bool,
    /// The value is an object without members.
    pub is_empty_object: bool,
    /// The value is `null`.
    pub is_null: bool,
    /// The object's `error_string` member, when it is a string.
    pub error_string: Option<String>,
    /// The object's `result` member written as JSON, when present and not `null`.
    pub result_text: Option<String>,
    /// The whole value written as JSON.
    pub text: String,
}

pub open spec fn context_spec(p: ContextProbe) -> Option<Seq<char>> {
    if p.is_object {
        if p.error_string matches Some(e) && e@.len() > 0 {
            Some(p.error_string->Some_0@)
        } else if p.result_text is Some {
            Some(p.result_text->Some_0@)
        } else if p.is_empty_object {
            None
        } else {
            Some(p.text@)
        }
    } else if p.is_null {
        None
    } else {
        Some(p.text@)
    }
}

/// The detail worth showing: a non-empty `error_string`, else a non-null
/// `result`, else the whole value unless it is empty or `null`.
pub fn extract_context(p: &ContextProbe) -> (r: Option<String>)
    ensures
        match r {
            Some(t) => context_spec(*p) == Some(t@),
            None => context_spec(*p) is None,
        },
{
    if p.is_object {
        if let Some(e) = &p.error_string {
            if e.as_str().unicode_len() > 0 {
                return Some(e.clone());
            }
        }
        if let Some(t) = &p.result_text {
            return Some(t.clone());
        }
        if p.is_empty_object {
            return None;
        }
        Some(p.text.clone())
    } else if p.is_null {
        None
    } else {
        Some(p.text.clone())
    }
}

pub open spec fn context_suffix(c: Option<ContextProbe>) -> Seq<char> {
    match c {
        Some(p) => match context_spec(p) {
            Some(t) => " ("@ + t + ")"@,
            None => Seq::empty(),
        },
        None => Seq::empty(),
    }
}

fn context_suffix_of(c: &Option<ContextProbe>) -> (r: String)
    ensures
        r@ == context_suffix(*c),
{
    match c {
        Some(p) => match extract_context(p) {
            Some(t) => {
                let mut s = String::from_str(" (");
                s.append(t.as_str());
                s.append(")");
                s
            },
            None => String::new(),
        },
        None => String::new(),
    }
}

/// The `error` object of a JSON-RPC reply.
#[derive(Debug)]
pub struct ReplyError {
    /// `code`, when it is an integer.
    pub code: Option<i64>,
    /// `message`, when it is a string.
    pub message: Option<String>,
    /// `data`, when present.
    pub data: Option<ContextProbe>,
}

/// The parts of a reply body that decide its outcome.
#[derive(Debug)]
pub struct ReplyBody {
    /// The body has a `jsonrpc` member.
    pub jsonrpc: bool,
    /// The JSON-RPC `error` member, when present.
    pub error: Option<ReplyError>,
    /// The legacy `result` member, when it is a string.
    pub legacy_result: Option<String>,
    /// The legacy `arguments` member, when present.
    pub arguments: Option<ContextProbe>,
}

/// Which member of a successful reply carries the payload (`null` when absent).
#[derive(Debug, Clone, Copy, PartialEq, Eq, Structural)]
pub enum PayloadMember {
    /// `result`, in JSON-RPC.
    Result,
    /// `arguments`, in the legacy dialect.
    Arguments,
}

/// How a reply body ends the call.
pub open spec fn reply_outcome_ok(b: ReplyBody) -> Option<PayloadMember> {
    if b.jsonrpc {
        if b.error is Some {
            None
        } else {
            Some(PayloadMember::Result)
        }
    } else if b.legacy_result matches Some(r) && r@ == "success"@ {
        Some(PayloadMember::Arguments)
    } else {
        None
    }
}

/// Interprets a reply: a JSON-RPC body fails with its `error` (code -1 and
/// message "rpc error" where missing) or carries `result`; a legacy body
/// without a string `result` is unreadable, one whose `result` is not
/// `"success"` fails with code -1 and that text, and otherwise carries
/// `arguments`. A failure's context is the detail in parentheses.
pub fn interpret_reply(body: &ReplyBody) -> (r: Result<PayloadMember, TransmissionError>)
    ensures
        match reply_outcome_ok(*body) {
            Some(m) => r == Ok::<PayloadMember, TransmissionError>(m),
            None => r is Err,
        },
        body.jsonrpc && body.error is Some ==> (r matches Err(TransmissionError::Rpc { code, message, context }) && {
            let e = body.error->Some_0;
            &&& code == (match e.code {
                Some(c) => c,
                None => -1i64,
            })
            &&& message@ == (match e.message {
                Some(m) => m@,
                None => "rpc error"@,
            })
            &&& context@ == context_suffix(e.data)
        }),
        !body.jsonrpc && body.legacy_result is None ==> (r matches Err(TransmissionError::Parse(t)) && t@ == "missing legacy result"@),
        (!body.jsonrpc && (body.legacy_result matches Some(res) && res@ != "success"@)) ==> (r matches Err(TransmissionError::Rpc { code, message, context })
            && code == -1 && message@ == body.legacy_result->Some_0@
            && context@ == context_suffix(body.arguments)),
{
    if body.jsonrpc {
        match &body.error {
            Some(e) => {
                let code = match e.code {
                    Some(c) => c,
                    None => -1,
                };
                let message = match &e.message {
                    Some(m) => m.clone(),
                    None => String::from_str("rpc error"),
                };
                let context = context_suffix_of(&e.data);
                Err(TransmissionError::Rpc { code, message, context })
            },
            None => Ok(PayloadMember::Result),
        }
    } else {
        match &body.legacy_result {
            None => Err(TransmissionError::Parse(String::from_str("missing legacy result"))),
            Some(res) => {
                if str_eq(res.as_str(), "success") {
                    Ok(PayloadMember::Arguments)
                } else {
                    let context = context_suffix_of(&body.arguments);
                    Err(TransmissionError::Rpc { code: -1, message: res.clone(), context })
                }
            },
        }
    }
}

// ---------------------------------------------------------------------------
// Call arguments

/// The torrent fields a refresh asks for.
pub fn snapshot_fields() -> (r: Vec<String>)
    ensures
        strings_view(r@) == seq![
            "id"@, "name"@, "status"@, "percent_done"@, "rate_download"@, "rate_upload"@,
            "eta"@, "upload_ratio"@, "size_when_done"@, "left_until_done"@, "download_dir"@,
            "peers_connected"@, "peers_sending_to_us"@, "peers_getting_from_us"@,
            "error_string"@, "peers"@,
        ],
{
    let mut v: Vec<String> = Vec::new();
    v.push(String::from_str("id"));
    v.push(String::from_str("name"));
    v.push(String::from_str("status"));
    v.push(String::from_str("percent_done"));
    v.push(String::from_str("rate_download"));
    v.push(String::from_str("rate_upload"));
    v.push(String::from_str("eta"));
    v.push(String::from_str("upload_ratio"));
    v.push(String::from_str("size_when_done"));
    v.push(String::from_str("left_until_done"));
    v.push(String::from_str("download_dir"));
    v.push(String::from_str("peers_connected"));
    v.push(String::from_str("peers_sending_to_us"));
    v.push(String::from_str("peers_getting_from_us"));
    v.push(String::from_str("error_string"));
    v.push(String::from_str("peers"));
    assert(strings_view(v@) =~= seq![
        "id"@, "name"@, "status"@, "percent_done"@, "rate_download"@, "rate_upload"@,
        "eta"@, "upload_ratio"@, "size_when_done"@, "left_until_done"@, "download_dir"@,
        "peers_connected"@, "peers_sending_to_us"@, "peers_getting_from_us"@,
        "error_string"@, "peers"@,
    ]);
    v
}

/// The session fields a preferences fetch asks for.
pub fn preference_fields() -> (r: Vec<String>)
    ensures
        r@.len() == 18,
        strings_view(r@) == seq![
            "download_dir"@, "start_added_torrents"@, "speed_limit_up"@,
            "speed_limit_up_enabled"@, "speed_limit_down"@, "speed_limit_down_enabled"@,
            "seed_ratio_limited"@, "seed_ratio_limit"@, "idle_seeding_limit_enabled"@,
            "idle_seeding_limit"@, "peer_limit_per_torrent"@, "peer_limit_global"@,
            "encryption"@, "pex_enabled"@, "dht_enabled"@, "lpd_enabled"@,
            "blocklist_enabled"@, "blocklist_url"@,
        ],
{
    let mut v: Vec<String> = Vec::new();
    v.push(String::from_str("download_dir"));
    v.push(String::from_str("start_added_torrents"));
    v.push(String::from_str("speed_limit_up"));
    v.push(String::from_str("speed_limit_up_enabled"));
    v.push(String::from_str("speed_limit_down"));
    v.push(String::from_str("speed_limit_down_enabled"));
    v.push(String::from_str("seed_ratio_limited"));
    v.push(String::from_str("seed_ratio_limit"));
    v.push(String::from_str("idle_seeding_limit_enabled"));
    v.push(String::from_str("idle_seeding_limit"));
    v.push(String::from_str("peer_limit_per_torrent"));
    v.push(String::from_str("peer_limit_global"));
    v.push(String::from_str("encryption"));
    v.push(String::from_str("pex_enabled"));
    v.push(String::from_str("dht_enabled"));
    v.push(String::from_str("lpd_enabled"));
    v.push(String::from_str("blocklist_enabled"));
    v.push(String::from_str("blocklist_url"));
    assert(strings_view(v@) =~= seq![
        "download_dir"@, "start_added_torrents"@, "speed_limit_up"@,
        "speed_limit_up_enabled"@, "speed_limit_down"@, "speed_limit_down_enabled"@,
        "seed_ratio_limited"@, "seed_ratio_limit"@, "idle_seeding_limit_enabled"@,
        "idle_seeding_limit"@, "peer_limit_per_torrent"@, "peer_limit_global"@,
        "encryption"@, "pex_enabled"@, "dht_enabled"@, "lpd_enabled"@,
        "blocklist_enabled"@, "blocklist_url"@,
    ]);
    v
}

/// Arguments of a `torrent_get` or `session_get`: the `fields` list, or none
/// at all for an empty list.
pub fn fields_arguments(fields: Vec<String>) -> (r: Option<Vec<WireEntry>>)
    ensures
        fields@.len() == 0 <==> r is None,
        r matches Some(a) ==> entries_view(a@) == seq![
            ("fields"@, WireSpec::TextList(strings_view(fields@))),
        ],
{
    if fields.len() == 0 {
        return None;
    }
    let mut args: Vec<WireEntry> = Vec::new();
    let ghost fv = strings_view(fields@);
    args.push(entry("fields", WireValue::TextList(fields)));
    assert(entries_view(args@) =~= seq![("fields"@, WireSpec::TextList(fv))]);
    Some(args)
}

/// Arguments of a `torrent_add` for a magnet link.
pub fn add_magnet_arguments(magnet: &str) -> (r: Vec<WireEntry>)
    ensures
        entries_view(r@) == seq![("filename"@, WireSpec::Text(magnet@))],
{
    let mut args: Vec<WireEntry> = Vec::new();
    args.push(entry("filename", WireValue::Text(String::from_str(magnet))));
    assert(entries_view(args@) =~= seq![("filename"@, WireSpec::Text(magnet@))]);
    args
}

/// Arguments of a `torrent_remove`; none (and no call) for an empty id list.
pub fn remove_arguments(ids: &Vec<i64>, delete_local_data: bool) -> (r: Option<Vec<WireEntry>>)
    ensures
        ids@.len() == 0 <==> r is None,
        r matches Some(a) ==> entries_view(a@) == seq![
            ("ids"@, WireSpec::IntList(ids@)),
            ("delete_local_data"@, WireSpec::Bool(delete_local_data)),
        ],
{
    if ids.len() == 0 {
        return None;
    }
    let mut args: Vec<WireEntry> = Vec::new();
    args.push(entry("ids", WireValue::IntList(ids.clone())));
    args.push(entry("delete_local_data", WireValue::Bool(delete_local_data)));
    assert(entries_view(args@) =~= seq![
        ("ids"@, WireSpec::IntList(ids@)),
        ("delete_local_data"@, WireSpec::Bool(delete_local_data)),
    ]);
    Some(args)
}

/// Arguments of a `torrent_start` or `torrent_stop`; none (and no call) for an
/// empty id list.
pub fn ids_arguments(ids: &Vec<i64>) -> (r: Option<Vec<WireEntry>>)
    ensures
        ids@.len() == 0 <==> r is None,
        r matches Some(a) ==> entries_view(a@) == seq![("ids"@, WireSpec::IntList(ids@))],
{
    if ids.len() == 0 {
        return None;
    }
    let mut args: Vec<WireEntry> = Vec::new();
    args.push(entry("ids", WireValue::IntList(ids.clone())));
    assert(entries_view(args@) =~= seq![("ids"@, WireSpec::IntList(ids@))]);
    Some(args)
}

// ---------------------------------------------------------------------------
// Adding a torrent

/// A torrent named in an add reply.
#[derive(Debug)]
pub struct TorrentRef {
    pub id: Option<i64>,
    pub name: Option<String>,
}

/// The members of a `torrent_add` reply (any of the underscore, hyphenated or
/// camelCase spellings).
#[derive(Debug)]
pub struct AddTorrentResponse {
    pub torrent_added: Option<TorrentRef>,
    pub torrent_duplicate: Option<TorrentRef>,
}

/// What adding a torrent did.
#[derive(Debug)]
pub struct AddTorrentOutcome {
    pub torrent_id: Option<i64>,
    pub name: Option<String>,
    pub added: bool,
    pub duplicate: bool,
}

impl AddTorrentOutcome {
    /// An added torrent wins over a duplicate; with neither, nothing is known.
    pub fn from_response(resp: AddTorrentResponse) -> (r: Self)
        ensures
            resp.torrent_added matches Some(t) ==> r.added && !r.duplicate && r.torrent_id
                == t.id && r.name == t.name,
            (resp.torrent_added is None && resp.torrent_duplicate is Some) ==> !r.added
                && r.duplicate && r.torrent_id == resp.torrent_duplicate->Some_0.id && r.name
                == resp.torrent_duplicate->Some_0.name,
            resp.torrent_added is None && resp.torrent_duplicate is None ==> !r.added
                && !r.duplicate && r.torrent_id is None && r.name is None,
    {
        if let Some(added) = resp.torrent_added {
            AddTorrentOutcome { torrent_id: added.id, name: added.name, added: true, duplicate: false }
        } else if let Some(dup) = resp.torrent_duplicate {
            AddTorrentOutcome { torrent_id: dup.id, name: dup.name, added: false, duplicate: true }
        } else {
            AddTorrentOutcome { torrent_id: None, name: None, added: false, duplicate: false }
        }
    }
}

} // verus!
