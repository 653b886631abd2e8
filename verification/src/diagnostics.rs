//! Diagnostic input validation: free-form server addresses parsed into
//! host, optional port, and scheme flag, with exact error reporting.
//!
//! Accepted forms: a bare IPv4 address or hostname, `host:port`, a full
//! `opc.tcp://host[:port][/path]` URL, and bracketed IPv6 `[addr]:port`.

use vstd::prelude::*;
use crate::i18n::{t, Language, T};
use crate::text::{
    spec_trim, trim_whitespace, spec_parse_u16, parse_u16, spec_dec, u64_to_dec, first_at,
    lemma_first_at, last_at, lemma_last_at, find_first, find_last, spec_contains,
    contains_chars, starts_with_chars,
};

verus! {

/// Progress state of one diagnostic step.
#[derive(Debug, Clone, Copy, PartialEq, Eq, Structural)]
pub enum StepStatus {
    Pending,
    Running,
    Success,
    Warning,
    Failed,
}

/// Icon text for a step status.
pub open spec fn spec_status_icon(s: StepStatus) -> Seq<char> {
    match s {
        StepStatus::Pending => "⏳"@,
        StepStatus::Running => "🔄"@,
        StepStatus::Success => "✅"@,
        StepStatus::Warning => "⚠️"@,
        StepStatus::Failed => "❌"@,
    }
}

impl StepStatus {
    /// Icon shown beside the step.
    pub fn icon(&self) -> (r: &'static str)
        ensures
            r@ == spec_status_icon(*self),
    {
        match self {
            StepStatus::Pending => "⏳",
            StepStatus::Running => "🔄",
            StepStatus::Success => "✅",
            StepStatus::Warning => "⚠️",
            StepStatus::Failed => "❌",
        }
    }
}

/// Identity of a diagnostic step.
#[derive(Debug, Clone, Copy, PartialEq, Eq, Structural)]
pub enum StepId {
    ValidateInput,
    ResolveDns,
    ScanPorts,
    DiscoverEndpoints,
}

/// A single diagnostic step result.
#[derive(Debug, Clone)]
pub struct DiagnosticStep {
    /// Step identifier.
    pub id: StepId,
    /// Human-readable step name.
    pub name: String,
    /// Current status.
    pub status: StepStatus,
    /// Detailed description or result.
    pub details: String,
    /// Time taken in milliseconds.
    pub duration_ms: u64,
}

impl DiagnosticStep {
    /// An equal copy, field for field.
    pub fn duplicate(&self) -> (r: Self)
        ensures
            r == *self,
    {
        Self {
            id: self.id,
            name: self.name.clone(),
            status: self.status,
            details: self.details.clone(),
            duration_ms: self.duration_ms,
        }
    }

    /// A pending step with no details yet.
    pub fn new(id: StepId, name: String) -> (r: Self)
        ensures
            r.id == id,
            r.name == name,
            r.status == StepStatus::Pending,
            r.details@.len() == 0,
            r.duration_ms == 0,
    {
        Self { id, name, status: StepStatus::Pending, details: String::new(), duration_ms: 0 }
    }

    /// The step, marked running.
    pub fn running(self, details: String) -> (r: Self)
        ensures
            r.id == self.id,
            r.name == self.name,
            r.status == StepStatus::Running,
            r.details == details,
            r.duration_ms == self.duration_ms,
    {
        Self { status: StepStatus::Running, details, ..self }
    }

    /// The step, marked successful.
    pub fn success(self, details: String, duration_ms: u64) -> (r: Self)
        ensures
            r.id == self.id,
            r.name == self.name,
            r.status == StepStatus::Success,
            r.details == details,
            r.duration_ms == duration_ms,
    {
        Self { status: StepStatus::Success, details, duration_ms, ..self }
    }

    /// The step, marked with a warning.
    pub fn warning(self, details: String, duration_ms: u64) -> (r: Self)
        ensures
            r.id == self.id,
            r.name == self.name,
            r.status == StepStatus::Warning,
            r.details == details,
            r.duration_ms == duration_ms,
    {
        Self { status: StepStatus::Warning, details, duration_ms, ..self }
    }

    /// The step, marked failed.
    pub fn failed(self, details: String, duration_ms: u64) -> (r: Self)
        ensures
            r.id == self.id,
            r.name == self.name,
            r.status == StepStatus::Failed,
            r.details == details,
            r.duration_ms == duration_ms,
    {
        Self { status: StepStatus::Failed, details, duration_ms, ..self }
    }
}

/// Parsed user input.
#[derive(Debug, Clone)]
pub struct ParsedInput {
    /// Extracted host (IP or hostname).
    pub host: String,
    /// Extracted port, when one was given.
    pub port: Option<u16>,
    /// Whether the input had the opc.tcp:// scheme.
    pub had_scheme: bool,
    /// Validation errors.
    pub errors: Vec<String>,
}

/// A host:port URL in the protocol's scheme.
pub open spec fn spec_url(host: Seq<char>, port: int) -> Seq<char> {
    "opc.tcp://"@ + host + ":"@ + spec_dec(port)
}

impl ParsedInput {
    /// Valid input: no errors and a non-empty host.
    pub fn is_valid(&self) -> (r: bool)
        ensures
            r == (self.errors@.len() == 0 && self.host@.len() > 0),
    {
        self.errors.len() == 0 && self.host.as_str().unicode_len() > 0
    }

    /// Build a URL for the host with the given port.
    pub fn to_url(&self, port: u16) -> (r: String)
        ensures
            r@ == spec_url(self.host@, port as int),
    {
        let mut out = "opc.tcp://".to_owned();
        out.append(self.host.as_str());
        out.append(":");
        let digits = u64_to_dec(port as u64);
        out.append(digits.as_str());
        out
    }
}

/// Result of probing one candidate port.
#[derive(Debug, Clone, Copy, PartialEq, Eq, Structural)]
pub struct PortScanResult {
    pub port: u16,
    pub open: bool,
}

/// Complete diagnostic result.
#[derive(Debug, Clone)]
pub struct DiagnosticResult {
    /// All diagnostic steps run so far, in order.
    pub steps: Vec<DiagnosticStep>,
    /// Overall success.
    pub overall_success: bool,
    /// Probed ports with their open/closed state.
    pub open_ports: Vec<PortScanResult>,
    /// Recommended URL to use.
    pub recommended_url: Option<String>,
    /// Discovered endpoints, if any.
    pub endpoints: Vec<crate::discovery::EndpointInfo>,
    /// Total time taken.
    pub total_duration_ms: u64,
}

impl DiagnosticResult {
    /// An empty result: nothing run, nothing found.
    pub fn new() -> (r: Self)
        ensures
            r.steps@.len() == 0,
            !r.overall_success,
            r.open_ports@.len() == 0,
            r.recommended_url is None,
            r.endpoints@.len() == 0,
            r.total_duration_ms == 0,
    {
        Self {
            steps: Vec::new(),
            overall_success: false,
            open_ports: Vec::new(),
            recommended_url: None,
            endpoints: Vec::new(),
            total_duration_ms: 0,
        }
    }
}

impl Default for DiagnosticResult {
    /// Same as `new`.
    fn default() -> (r: Self)
        ensures
            r.steps@.len() == 0,
            !r.overall_success,
            r.open_ports@.len() == 0,
            r.recommended_url is None,
            r.endpoints@.len() == 0,
            r.total_duration_ms == 0,
    {
        Self::new()
    }
}

// ---------------------------------------------------------------------------
// The input grammar
// ---------------------------------------------------------------------------

/// Whether the trimmed input carries the protocol scheme prefix.
pub open spec fn spec_has_scheme(t: Seq<char>) -> bool {
    t.len() >= "opc.tcp://"@.len() && t.subrange(0, "opc.tcp://"@.len() as int)
        == "opc.tcp://"@
}

/// The trimmed input with its scheme prefix removed, when present.
pub open spec fn spec_rest(t: Seq<char>) -> Seq<char> {
    if spec_has_scheme(t) {
        t.subrange("opc.tcp://"@.len() as int, t.len() as int)
    } else {
        t
    }
}

/// The host:port part: everything before the first '/' of the rest.
pub open spec fn spec_host_port(t: Seq<char>) -> Seq<char> {
    spec_rest(t).subrange(0, first_at(spec_rest(t), '/'))
}

/// What parsing yields: host, port, scheme flag, error list.
pub open spec fn spec_parse_bracketed(hp: Seq<char>, had: bool) -> (
    Seq<char>,
    Option<u16>,
    bool,
    Seq<Seq<char>>,
) {
    let be = first_at(hp, ']');
    if be < hp.len() {
        let host = hp.subrange(0, be + 1);
        let after = hp.subrange(be + 1, hp.len() as int);
        if after.len() > 0 && after[0] == ':' {
            let ps = after.drop_first();
            match spec_parse_u16(ps) {
                Some(p) => (host, Some(p), had, Seq::<Seq<char>>::empty()),
                None => (host, None::<u16>, had, seq!["Invalid port: "@ + ps]),
            }
        } else {
            (host, None::<u16>, had, Seq::<Seq<char>>::empty())
        }
    } else {
        (
            Seq::<char>::empty(),
            None::<u16>,
            had,
            seq!["Invalid IPv6 address format"@, "Host cannot be empty"@],
        )
    }
}

/// Parsing of an unbracketed host:port part: the text after the last ':'
/// must parse as a port; otherwise the whole part is the host.
pub open spec fn spec_parse_plain(hp: Seq<char>, had: bool) -> (
    Seq<char>,
    Option<u16>,
    bool,
    Seq<Seq<char>>,
) {
    let la = last_at(hp, ':');
    let host = if la >= 0 && spec_parse_u16(hp.subrange(la + 1, hp.len() as int)) is Some {
        hp.subrange(0, la)
    } else {
        hp
    };
    let port = if la >= 0 {
        spec_parse_u16(hp.subrange(la + 1, hp.len() as int))
    } else {
        None
    };
    if host.len() == 0 {
        (host, port, had, seq!["Host cannot be empty"@])
    } else {
        (host, port, had, Seq::<Seq<char>>::empty())
    }
}

/// Parsing of the already-trimmed input.
pub open spec fn spec_parse_trimmed(t: Seq<char>) -> (
    Seq<char>,
    Option<u16>,
    bool,
    Seq<Seq<char>>,
) {
    if t.len() == 0 {
        (Seq::<char>::empty(), None::<u16>, false, seq!["Input cannot be empty"@])
    } else if spec_has_scheme(t) || !spec_contains(t, "://"@) {
        let hp = spec_host_port(t);
        if hp.len() > 0 && hp[0] == '[' {
            spec_parse_bracketed(hp, spec_has_scheme(t))
        } else {
            spec_parse_plain(hp, spec_has_scheme(t))
        }
    } else {
        (
            Seq::<char>::empty(),
            None::<u16>,
            false,
            seq!["Only opc.tcp:// scheme is supported"@],
        )
    }
}

/// Parsing of raw user input: trim, then apply the grammar.
pub open spec fn spec_parse(s: Seq<char>) -> (Seq<char>, Option<u16>, bool, Seq<Seq<char>>) {
    spec_parse_trimmed(spec_trim(s))
}

/// Whether a `ParsedInput` is exactly what the grammar says for `s`.
pub open spec fn parse_matches(r: ParsedInput, s: Seq<char>) -> bool {
    let (host, port, had, errs) = spec_parse(s);
    r.host@ == host && r.port == port && r.had_scheme == had && r.errors.deep_view() == errs
}

fn parse_bracketed(hp: &str, had: bool) -> (r: ParsedInput)
    requires
        hp@.len() > 0,
        hp@[0] == '[',
    ensures
        ({
            let (host, port, had2, errs) = spec_parse_bracketed(hp@, had);
            r.host@ == host && r.port == port && r.had_scheme == had2
                && r.errors.deep_view() == errs
        }),
{
    let n = hp.unicode_len();
    proof {
        lemma_first_at(hp@, ']');
    }
    let be = find_first(hp, ']');
    if be < n {
        let host = hp.substring_char(0, be + 1).to_owned();
        let after = hp.substring_char(be + 1, n);
        let ghost spec_after = hp@.subrange(be + 1, hp@.len() as int);
        let m = after.unicode_len();
        if m > 0 && after.get_char(0) == ':' {
            let ps = after.substring_char(1, m);
            proof {
                assert(ps@ =~= spec_after.drop_first());
            }
            match parse_u16(ps) {
                Some(p) => {
                    let r = ParsedInput { host, port: Some(p), had_scheme: had, errors: Vec::new() };
                    proof {
                        assert(r.errors.deep_view() =~= Seq::<Seq<char>>::empty());
                    }
                    r
                },
                None => {
                    let mut msg = "Invalid port: ".to_owned();
                    msg.append(ps);
                    let mut errors: Vec<String> = Vec::new();
                    errors.push(msg);
                    let r = ParsedInput { host, port: None, had_scheme: had, errors };
                    proof {
                        assert(r.errors.deep_view() =~= seq!["Invalid port: "@ + ps@]);
                    }
                    r
                },
            }
        } else {
            let r = ParsedInput { host, port: None, had_scheme: had, errors: Vec::new() };
            proof {
                assert(r.errors.deep_view() =~= Seq::<Seq<char>>::empty());
            }
            r
        }
    } else {
        let mut errors: Vec<String> = Vec::new();
        errors.push("Invalid IPv6 address format".to_owned());
        errors.push("Host cannot be empty".to_owned());
        let r = ParsedInput { host: String::new(), port: None, had_scheme: had, errors };
        proof {
            assert(r.errors.deep_view() =~= seq![
                "Invalid IPv6 address format"@,
                "Host cannot be empty"@,
            ]);
        }
        r
    }
}

fn parse_plain(hp: &str, had: bool) -> (r: ParsedInput)
    ensures
        ({
            let (host, port, had2, errs) = spec_parse_plain(hp@, had);
            r.host@ == host && r.port == port && r.had_scheme == had2
                && r.errors.deep_view() == errs
        }),
{
    let n = hp.unicode_len();
    proof {
        lemma_last_at(hp@, ':');
    }
    let mut host: String;
    let mut port: Option<u16> = None;
    match find_last(hp, ':') {
        Some(la) => {
            let ps = hp.substring_char(la + 1, n);
            match parse_u16(ps) {
                Some(p) => {
                    port = Some(p);
                    host = hp.substring_char(0, la).to_owned();
                },
                None => {
                    host = hp.to_owned();
                },
            }
        },
        None => {
            host = hp.to_owned();
        },
    }
    let mut errors: Vec<String> = Vec::new();
    if host.as_str().unicode_len() == 0 {
        errors.push("Host cannot be empty".to_owned());
        proof {
            assert(errors.deep_view() =~= seq!["Host cannot be empty"@]);
        }
    } else {
        proof {
            assert(errors.deep_view() =~= Seq::<Seq<char>>::empty());
        }
    }
    ParsedInput { host, port, had_scheme: had, errors }
}

/// Parse user input into structured data.
///
/// Accepts an IP address or hostname, `host:port`, a full URL with the
/// protocol scheme, and bracketed IPv6; rejects every other scheme and an
/// empty host.
pub fn parse_user_input(input: &str) -> (r: ParsedInput)
    ensures
        parse_matches(r, input@),
{
    let trimmed = trim_whitespace(input);
    let n = trimmed.unicode_len();
    if n == 0 {
        let mut errors: Vec<String> = Vec::new();
        errors.push("Input cannot be empty".to_owned());
        let r = ParsedInput { host: String::new(), port: None, had_scheme: false, errors };
        proof {
            assert(r.errors.deep_view() =~= seq!["Input cannot be empty"@]);
        }
        return r;
    }
    let with_scheme = starts_with_chars(trimmed, "opc.tcp://");
    if (!with_scheme) && contains_chars(trimmed, "://") {
        let mut errors: Vec<String> = Vec::new();
        errors.push("Only opc.tcp:// scheme is supported".to_owned());
        let r = ParsedInput { host: String::new(), port: None, had_scheme: false, errors };
        proof {
            assert(r.errors.deep_view() =~= seq!["Only opc.tcp:// scheme is supported"@]);
        }
        return r;
    }
    let scheme_len = "opc.tcp://".unicode_len();
    let rest = if with_scheme {
        trimmed.substring_char(scheme_len, n)
    } else {
        trimmed
    };
    proof {
        assert(rest@ == spec_rest(trimmed@));
        lemma_first_at(rest@, '/');
    }
    let slash = find_first(rest, '/');
    let hp = rest.substring_char(0, slash);
    proof {
        assert(hp@ == spec_host_port(trimmed@));
    }
    if hp.unicode_len() > 0 && hp.get_char(0) == '[' {
        parse_bracketed(hp, with_scheme)
    } else {
        parse_plain(hp, with_scheme)
    }
}

/// Any input that carries a scheme other than the protocol's own is
/// rejected: parsing yields a non-empty error list and no scheme flag.
pub proof fn lemma_invalid_scheme_rejected(s: Seq<char>)
    requires
        spec_contains(spec_trim(s), "://"@),
        !spec_has_scheme(spec_trim(s)),
    ensures
        ({
            let (host, port, had, errs) = spec_parse(s);
            errs.len() > 0 && !had && host.len() == 0
        }),
{
    reveal_strlit("://");
    let t = spec_trim(s);
    let k = choose|k: int| crate::text::contains_at(t, "://"@, k);
    assert(t.len() >= 3);
}

// ---------------------------------------------------------------------------
// The diagnostic pipeline
// ---------------------------------------------------------------------------

/// The well-known candidate ports probed when the input names none.
pub open spec fn spec_common_ports() -> Seq<u16> {
    seq![4840u16, 4841u16, 4842u16, 4843u16, 48010u16, 48020u16, 62541u16]
}

/// The well-known candidate ports probed when the input names none.
pub fn common_ports() -> (r: Vec<u16>)
    ensures
        r@ == spec_common_ports(),
{
    let mut v: Vec<u16> = Vec::new();
    v.push(4840);
    v.push(4841);
    v.push(4842);
    v.push(4843);
    v.push(48010);
    v.push(48020);
    v.push(62541);
    proof {
        assert(v@ =~= spec_common_ports());
    }
    v
}

/// Where the pipeline stands: which outside work it waits for next.
#[derive(Debug, Clone, Copy, PartialEq, Eq, Structural)]
pub enum DiagStage {
    /// Waiting for the host to be resolved.
    Dns,
    /// Probing candidate ports, one at a time.
    Scan,
    /// Asking open ports for endpoints, one at a time.
    Discover,
    /// Finished: the result is complete but for the total duration.
    Done,
}

/// The outside work the pipeline asks for next.
#[derive(Debug, Clone)]
pub enum DiagRequest {
    /// Resolve this host to an address (a fixed placeholder port is used
    /// for resolution purposes).
    ResolveHost(String),
    /// Try one TCP connection to host:port, with a short fixed timeout.
    ProbePort { host: String, port: u16 },
    /// Ask the server at this URL for its endpoints.
    Discover(String),
    /// Nothing left to do: collect the result.
    Finished,
}

/// Whether any probed port was open.
pub open spec fn any_open(s: Seq<PortScanResult>) -> bool {
    exists|i: int| 0 <= i < s.len() && s[i].open
}

/// The first `i` error texts joined by ", ".
pub open spec fn spec_joined_errors(errs: Seq<Seq<char>>, i: int) -> Seq<char>
    decreases i,
{
    if i <= 0 {
        Seq::empty()
    } else if i == 1 {
        errs[0]
    } else {
        spec_joined_errors(errs, i - 1) + ", "@ + errs[i - 1]
    }
}

/// The staged network diagnostic: validate, resolve, scan, discover.
///
/// Each stage's network work runs outside the library; the engine makes
/// every decision.  It stops at the first of a failed validation, a
/// failed resolution, or an all-closed scan; endpoint discovery failure
/// only downgrades the final step to a warning.
pub struct DiagnosticEngine {
    /// Language for step names and details.
    pub lang: Language,
    /// The validated input.
    pub parsed: ParsedInput,
    /// The address probed: the resolved address, else the host itself.
    pub probe_host: String,
    /// Candidate ports: the parsed port alone, else the well-known set.
    pub ports_to_scan: Vec<u16>,
    /// How many candidates have been probed.
    pub scan_index: usize,
    /// Position of the open port currently asked for endpoints.
    pub discover_index: usize,
    /// Current stage.
    pub stage: DiagStage,
    /// The result assembled so far.
    pub result: DiagnosticResult,
}

impl DiagnosticEngine {
    /// The engine's invariant: indices sit within their lists, one probe
    /// result is recorded per probed candidate, and discovery points at
    /// an open port.
    pub open spec fn wf(&self) -> bool {
        &&& self.scan_index <= self.ports_to_scan@.len()
        &&& self.result.open_ports@.len() == self.scan_index
        &&& (self.stage is Scan ==> self.scan_index < self.ports_to_scan@.len())
        &&& (self.stage is Dns ==> self.scan_index == 0)
        &&& (self.stage is Discover ==> self.discover_index
            < self.result.open_ports@.len() && self.result.open_ports@[
            self.discover_index as int].open)
    }

    /// Validate the input and set the pipeline up.  Returns the engine
    /// and the step updates to stream (the running update, then the
    /// step's outcome).  Invalid input fails the first step and ends the
    /// pipeline at once, with only that step in the result.
    pub fn new(input: &str, lang: Language) -> (r: (Self, Vec<DiagnosticStep>))
        ensures
            r.0.wf(),
            parse_matches(r.0.parsed, input@),
            r.1@.len() == 2,
            r.1@[0].id == StepId::ValidateInput,
            r.1@[0].status == StepStatus::Running,
            r.1@[1].id == StepId::ValidateInput,
            r.0.result.steps@.len() == 1,
            r.0.result.steps@[0] == r.1@[1],
            !r.0.result.overall_success,
            r.0.result.open_ports@.len() == 0,
            r.0.result.recommended_url is None,
            r.0.result.endpoints@.len() == 0,
            ({
                let (host, port, had, errs) = spec_parse(input@);
                if errs.len() == 0 && host.len() > 0 {
                    &&& r.1@[1].status == StepStatus::Success
                    &&& r.1@[1].details@ == "Host: "@ + host
                    &&& r.0.stage is Dns
                    &&& r.0.probe_host@ == host
                    &&& (match port {
                        Some(p) => r.0.ports_to_scan@ == seq![p],
                        None => r.0.ports_to_scan@ == spec_common_ports(),
                    })
                } else {
                    &&& r.1@[1].status == StepStatus::Failed
                    &&& r.1@[1].details@ == spec_joined_errors(errs, errs.len() as int)
                    &&& r.0.stage is Done
                }
            }),
    {
        let parsed = parse_user_input(input);
        let step1 = DiagnosticStep::new(StepId::ValidateInput, t(T::ValidatingUrl, lang).to_owned());
        let running = step1.duplicate().running(t(T::ValidatingUrl, lang).to_owned());
        let mut stream: Vec<DiagnosticStep> = Vec::new();
        stream.push(running);
        let mut result = DiagnosticResult::new();
        if parsed.is_valid() {
            let mut details = "Host: ".to_owned();
            details.append(parsed.host.as_str());
            let outcome = step1.success(details, 0);
            stream.push(outcome.duplicate());
            result.steps.push(outcome);
            let probe_host = parsed.host.clone();
            let ports_to_scan = match parsed.port {
                Some(p) => {
                    let mut v: Vec<u16> = Vec::new();
                    v.push(p);
                    proof {
                        assert(v@ =~= seq![p]);
                    }
                    v
                },
                None => common_ports(),
            };
            let engine = DiagnosticEngine {
                lang,
                parsed,
                probe_host,
                ports_to_scan,
                scan_index: 0,
                discover_index: 0,
                stage: DiagStage::Dns,
                result,
            };
            (engine, stream)
        } else {
            let mut details = String::new();
            let mut i: usize = 0;
            let n = parsed.errors.len();
            while i < n
                invariant
                    0 <= i <= n,
                    n == parsed.errors@.len(),
                    details@ == spec_joined_errors(parsed.errors.deep_view(), i as int),
                decreases n - i,
            {
                if i > 0 {
                    details.append(", ");
                }
                details.append(parsed.errors[i].as_str());
                proof {
                    assert(parsed.errors.deep_view()[i as int] == parsed.errors@[i as int]@);
                }
                i += 1;
            }
            proof {
                assert(parsed.errors.deep_view().len() == parsed.errors@.len());
            }
            let outcome = step1.failed(details, 0);
            stream.push(outcome.duplicate());
            result.steps.push(outcome);
            let engine = DiagnosticEngine {
                lang,
                parsed,
                probe_host: String::new(),
                ports_to_scan: Vec::new(),
                scan_index: 0,
                discover_index: 0,
                stage: DiagStage::Done,
                result,
            };
            (engine, stream)
        }
    }

    /// The outside work to perform next.
    pub fn next_request(&self) -> (r: DiagRequest)
        requires
            self.wf(),
        ensures
            match self.stage {
                DiagStage::Dns => r matches DiagRequest::ResolveHost(h) && h@
                    == self.parsed.host@,
                DiagStage::Scan => r matches DiagRequest::ProbePort { host, port } && host@
                    == self.probe_host@ && port == self.ports_to_scan@[
                    self.scan_index as int],
                DiagStage::Discover => r matches DiagRequest::Discover(u) && u@ == spec_url(
                    self.parsed.host@,
                    self.result.open_ports@[self.discover_index as int].port as int,
                ),
                DiagStage::Done => r is Finished,
            },
    {
        match self.stage {
            DiagStage::Dns => DiagRequest::ResolveHost(self.parsed.host.clone()),
            DiagStage::Scan => DiagRequest::ProbePort {
                host: self.probe_host.clone(),
                port: self.ports_to_scan[self.scan_index],
            },
            DiagStage::Discover => DiagRequest::Discover(
                self.parsed.to_url(self.result.open_ports[self.discover_index].port),
            ),
            DiagStage::Done => DiagRequest::Finished,
        }
    }

    /// Take the resolution outcome.  Success records the address to
    /// probe and moves to the scan; failure fails the pipeline.
    pub fn on_resolved(&mut self, outcome: Result<String, String>, duration_ms: u64) -> (r:
        Vec<DiagnosticStep>)
        requires
            old(self).wf(),
            old(self).stage is Dns,
        ensures
            final(self).wf(),
            final(self).result.open_ports == old(self).result.open_ports,
            final(self).result.overall_success == old(self).result.overall_success,
            final(self).result.endpoints == old(self).result.endpoints,
            final(self).result.recommended_url == old(self).result.recommended_url,
            final(self).ports_to_scan == old(self).ports_to_scan,
            final(self).parsed == old(self).parsed,
            r@.len() == 1,
            r@[0].id == StepId::ResolveDns,
            r@[0].duration_ms == duration_ms,
            final(self).result.steps@ == old(self).result.steps@.push(r@[0]),
            match outcome {
                Ok(ip) => {
                    &&& final(self).stage is Scan || (final(self).stage is Done && old(
                        self,
                    ).ports_to_scan@.len() == 0)
                    &&& final(self).probe_host == ip
                    &&& r@[0].status == StepStatus::Success
                },
                Err(e) => {
                    &&& final(self).stage is Done
                    &&& r@[0].status == StepStatus::Failed
                },
            },
    {
        let step2 = DiagnosticStep::new(StepId::ResolveDns, t(T::ResolvingDns, self.lang).to_owned());
        match outcome {
            Ok(ip) => {
                let mut details = self.parsed.host.clone();
                details.append(" -> ");
                details.append(ip.as_str());
                let outcome_step = step2.success(details, duration_ms);
                self.result.steps.push(outcome_step.duplicate());
                self.probe_host = ip;
                if self.ports_to_scan.len() > 0 {
                    self.stage = DiagStage::Scan;
                } else {
                    self.stage = DiagStage::Done;
                }
                let mut r: Vec<DiagnosticStep> = Vec::new();
                r.push(outcome_step);
                r
            },
            Err(e) => {
                let mut details = t(T::DnsFailed, self.lang).to_owned();
                details.append(": ");
                details.append(e.as_str());
                let outcome_step = step2.failed(details, duration_ms);
                self.result.steps.push(outcome_step.duplicate());
                self.stage = DiagStage::Done;
                let mut r: Vec<DiagnosticStep> = Vec::new();
                r.push(outcome_step);
                r
            },
        }
    }

    /// Record one probe.  After the last candidate, the scan step is
    /// emitted: failed (ending the pipeline) when every port was closed,
    /// successful otherwise, moving on to discovery at the first open
    /// port.  Discovery never runs when all candidates were closed.
    pub fn on_port_probed(&mut self, open: bool, elapsed_ms: u64) -> (r: Vec<DiagnosticStep>)
        requires
            old(self).wf(),
            old(self).stage is Scan,
        ensures
            final(self).wf(),
            final(self).parsed == old(self).parsed,
            final(self).ports_to_scan == old(self).ports_to_scan,
            final(self).result.open_ports@ == old(self).result.open_ports@.push(
                PortScanResult {
                    port: old(self).ports_to_scan@[old(self).scan_index as int],
                    open,
                },
            ),
            final(self).scan_index == old(self).scan_index + 1,
            final(self).result.overall_success == old(self).result.overall_success,
            final(self).result.recommended_url == old(self).result.recommended_url,
            final(self).result.endpoints == old(self).result.endpoints,
            if old(self).scan_index + 1 < old(self).ports_to_scan@.len() {
                &&& final(self).stage is Scan
                &&& r@.len() == 0
                &&& final(self).result.steps == old(self).result.steps
            } else {
                &&& r@.len() == 1
                &&& r@[0].id == StepId::ScanPorts
                &&& r@[0].duration_ms == elapsed_ms
                &&& final(self).result.steps@ == old(self).result.steps@.push(r@[0])
                &&& if any_open(final(self).result.open_ports@) {
                    &&& r@[0].status == StepStatus::Success
                    &&& final(self).stage is Discover
                    &&& (forall|j: int|
                        0 <= j < final(self).discover_index ==> !(
                        #[trigger] final(self).result.open_ports@[j]).open)
                } else {
                    r@[0].status == StepStatus::Failed && final(self).stage is Done
                }
            },
    {
        let total = self.ports_to_scan.len();
        proof {
            assert(self.scan_index < total);
        }
        let port = self.ports_to_scan[self.scan_index];
        self.result.open_ports.push(PortScanResult { port, open });
        self.scan_index = self.scan_index + 1;
        if self.scan_index < self.ports_to_scan.len() {
            return Vec::new();
        }
        // Last candidate probed: close the scan step.
        let step3 = DiagnosticStep::new(
            StepId::ScanPorts,
            t(T::ScanningPorts, self.lang).to_owned(),
        );
        let m = self.result.open_ports.len();
        let mut first_open: usize = m;
        let mut k: usize = 0;
        while k < m
            invariant
                0 <= k <= m,
                m == self.result.open_ports@.len(),
                first_open == m || (first_open < k && self.result.open_ports@[
                    first_open as int].open),
                first_open < m ==> forall|j: int|
                    0 <= j < first_open ==> !(#[trigger] self.result.open_ports@[j]).open,
                first_open == m ==> forall|j: int|
                    0 <= j < k ==> !(#[trigger] self.result.open_ports@[j]).open,
            decreases m - k,
        {
            if first_open == m && self.result.open_ports[k].open {
                first_open = k;
            }
            k += 1;
        }
        if first_open == m {
            proof {
                assert(!any_open(self.result.open_ports@));
            }
            let outcome_step = step3.failed(t(T::NoOpenPorts, self.lang).to_owned(), elapsed_ms);
            self.result.steps.push(outcome_step.duplicate());
            self.stage = DiagStage::Done;
            let mut r: Vec<DiagnosticStep> = Vec::new();
            r.push(outcome_step);
            r
        } else {
            let outcome_step = step3.success(t(T::PortsOpen, self.lang).to_owned(), elapsed_ms);
            self.result.steps.push(outcome_step.duplicate());
            self.discover_index = first_open;
            self.stage = DiagStage::Discover;
            let mut r: Vec<DiagnosticStep> = Vec::new();
            r.push(outcome_step);
            r
        }
    }

    /// Take one discovery outcome.  The first open port that yields a
    /// non-empty endpoint list makes the pipeline succeed, with the
    /// first endpoint's URL recommended; otherwise the next open port is
    /// tried, and when none is left the final step is only a warning.
    pub fn on_discovered(
        &mut self,
        outcome: Result<Vec<crate::discovery::EndpointInfo>, String>,
        elapsed_ms: u64,
    ) -> (r: Vec<DiagnosticStep>)
        requires
            old(self).wf(),
            old(self).stage is Discover,
        ensures
            final(self).wf(),
            final(self).parsed == old(self).parsed,
            final(self).result.open_ports == old(self).result.open_ports,
            match outcome {
                Ok(eps) => if eps@.len() > 0 {
                    &&& final(self).stage is Done
                    &&& final(self).result.overall_success
                    &&& final(self).result.endpoints == eps
                    &&& final(self).result.recommended_url matches Some(u) && u@ == eps@[0].endpoint_url@
                    &&& r@.len() == 1 && r@[0].id == StepId::DiscoverEndpoints && r@[0].status
                        == StepStatus::Success && r@[0].duration_ms == elapsed_ms
                    &&& final(self).result.steps@ == old(self).result.steps@.push(r@[0])
                } else {
                    no_endpoints_post(*old(self), *final(self), r@, elapsed_ms)
                },
                Err(e) => no_endpoints_post(*old(self), *final(self), r@, elapsed_ms),
            },
    {
        match outcome {
            Ok(eps) => {
                if eps.len() > 0 {
                    let url = eps[0].endpoint_url.clone();
                    self.result.endpoints = eps;
                    self.result.recommended_url = Some(url);
                    self.result.overall_success = true;
                    let step4 = DiagnosticStep::new(
                        StepId::DiscoverEndpoints,
                        t(T::DiscoveringEndpoints, self.lang).to_owned(),
                    );
                    let outcome_step = step4.success(
                        t(T::FoundEndpoints, self.lang).to_owned(),
                        elapsed_ms,
                    );
                    self.result.steps.push(outcome_step.duplicate());
                    self.stage = DiagStage::Done;
                    let mut r: Vec<DiagnosticStep> = Vec::new();
                    r.push(outcome_step);
                    return r;
                }
            },
            Err(e) => {
            },
        }
        // Try the next open port, if any.
        let m = self.result.open_ports.len();
        let mut k: usize = self.discover_index + 1;
        while k < m
            invariant
                match outcome {
                    Ok(eps) => eps@.len() == 0,
                    Err(_) => true,
                },
                old(self).stage is Discover,
                old(self).discover_index < k <= m,
                m == self.result.open_ports@.len(),
                forall|j: int|
                    old(self).discover_index < j < k ==> !(
                    #[trigger] self.result.open_ports@[j]).open,
                self.result == old(self).result,
                self.stage == old(self).stage,
                self.parsed == old(self).parsed,
                self.ports_to_scan == old(self).ports_to_scan,
                self.scan_index == old(self).scan_index,
                self.discover_index == old(self).discover_index,
                self.probe_host == old(self).probe_host,
                old(self).wf(),
            decreases m - k,
        {
            if self.result.open_ports[k].open {
                proof {
                    assert(old(self).discover_index < k as int);
                    assert((k as int) < old(self).result.open_ports@.len());
                    assert(old(self).result.open_ports@[k as int].open);
                }
                self.discover_index = k;
                return Vec::new();
            }
            k += 1;
        }
        let step4 = DiagnosticStep::new(
            StepId::DiscoverEndpoints,
            t(T::DiscoveringEndpoints, self.lang).to_owned(),
        );
        let outcome_step = step4.warning(
            t(T::NoEndpointsFound, self.lang).to_owned(),
            elapsed_ms,
        );
        self.result.steps.push(outcome_step.duplicate());
        self.stage = DiagStage::Done;
        let mut r: Vec<DiagnosticStep> = Vec::new();
        r.push(outcome_step);
        r
    }

    /// Observe a cancellation between pieces of outside work, exactly at
    /// the points the pipeline checks its token: the current stage is
    /// closed out the way a finished one would be, and the pipeline
    /// ends.
    pub fn cancel(&mut self, elapsed_ms: u64) -> (r: Vec<DiagnosticStep>)
        requires
            old(self).wf(),
        ensures
            final(self).wf(),
            final(self).stage is Done,
            final(self).result.overall_success == old(self).result.overall_success,
            final(self).result.open_ports == old(self).result.open_ports,
            final(self).result.endpoints == old(self).result.endpoints,
            final(self).result.recommended_url == old(self).result.recommended_url,
            match old(self).stage {
                DiagStage::Scan => {
                    &&& r@.len() == 1
                    &&& r@[0].id == StepId::ScanPorts
                    &&& r@[0].duration_ms == elapsed_ms
                    &&& r@[0].status == (if any_open(old(self).result.open_ports@) {
                        StepStatus::Success
                    } else {
                        StepStatus::Failed
                    })
                    &&& final(self).result.steps@ == old(self).result.steps@.push(r@[0])
                },
                DiagStage::Discover => {
                    &&& r@.len() == 1
                    &&& r@[0].id == StepId::DiscoverEndpoints
                    &&& r@[0].duration_ms == elapsed_ms
                    &&& r@[0].status == StepStatus::Warning
                    &&& final(self).result.steps@ == old(self).result.steps@.push(r@[0])
                },
                _ => {
                    &&& r@.len() == 0
                    &&& final(self).result.steps == old(self).result.steps
                },
            },
    {
        match self.stage {
            DiagStage::Scan => {
                // As when the scan loop stops early: judge the ports
                // probed so far.
                let step3 = DiagnosticStep::new(
                    StepId::ScanPorts,
                    t(T::ScanningPorts, self.lang).to_owned(),
                );
                let any = {
                    let m = self.result.open_ports.len();
                    let mut k: usize = 0;
                    let mut found = false;
                    while k < m
                        invariant
                            0 <= k <= m,
                            m == self.result.open_ports@.len(),
                            found ==> any_open(self.result.open_ports@),
                            !found ==> forall|j: int|
                                0 <= j < k ==> !(#[trigger] self.result.open_ports@[j]).open,
                        decreases m - k,
                    {
                        if self.result.open_ports[k].open {
                            proof {
                                let ki = k as int;
                                assert(0 <= ki < self.result.open_ports@.len());
                                assert(self.result.open_ports@[ki].open);
                            }
                            found = true;
                        }
                        k += 1;
                    }
                    found
                };
                let outcome_step = if any {
                    step3.success(t(T::PortsOpen, self.lang).to_owned(), elapsed_ms)
                } else {
                    step3.failed(t(T::NoOpenPorts, self.lang).to_owned(), elapsed_ms)
                };
                self.result.steps.push(outcome_step.duplicate());
                self.stage = DiagStage::Done;
                let mut r: Vec<DiagnosticStep> = Vec::new();
                r.push(outcome_step);
                r
            },
            DiagStage::Discover => {
                // As when the discovery loop stops early: no success yet,
                // so the final step is a warning.
                let step4 = DiagnosticStep::new(
                    StepId::DiscoverEndpoints,
                    t(T::DiscoveringEndpoints, self.lang).to_owned(),
                );
                let outcome_step = step4.warning(
                    t(T::NoEndpointsFound, self.lang).to_owned(),
                    elapsed_ms,
                );
                self.result.steps.push(outcome_step.duplicate());
                self.stage = DiagStage::Done;
                let mut r: Vec<DiagnosticStep> = Vec::new();
                r.push(outcome_step);
                r
            },
            _ => {
                self.stage = DiagStage::Done;
                Vec::new()
            },
        }
    }

    /// End the run: the result, with the total duration measured by the
    /// caller end to end, wherever the pipeline stopped.
    pub fn complete(self, total_duration_ms: u64) -> (r: DiagnosticResult)
        ensures
            r.steps == self.result.steps,
            r.overall_success == self.result.overall_success,
            r.open_ports == self.result.open_ports,
            r.recommended_url == self.result.recommended_url,
            r.endpoints == self.result.endpoints,
            r.total_duration_ms == total_duration_ms,
    {
        let mut result = self.result;
        result.total_duration_ms = total_duration_ms;
        result
    }
}

/// What a discovery outcome without usable endpoints does: either the
/// next open port is tried, or, when none is left, the final step is
/// emitted as a warning and the pipeline ends without overall success.
pub open spec fn no_endpoints_post(
    pre: DiagnosticEngine,
    post: DiagnosticEngine,
    r: Seq<DiagnosticStep>,
    elapsed_ms: u64,
) -> bool {
    let more = exists|j: int|
        pre.discover_index < j < pre.result.open_ports@.len() && (
        #[trigger] pre.result.open_ports@[j]).open;
    &&& post.result.overall_success == pre.result.overall_success
    &&& post.result.recommended_url == pre.result.recommended_url
    &&& post.result.endpoints == pre.result.endpoints
    &&& if more {
        &&& post.stage is Discover
        &&& post.discover_index > pre.discover_index
        &&& (forall|j: int|
            pre.discover_index < j < post.discover_index ==> !(
            #[trigger] pre.result.open_ports@[j]).open)
        &&& r.len() == 0
        &&& post.result.steps == pre.result.steps
    } else {
        &&& post.stage is Done
        &&& r.len() == 1
        &&& r[0].id == StepId::DiscoverEndpoints
        &&& r[0].status == StepStatus::Warning
        &&& r[0].duration_ms == elapsed_ms
        &&& post.result.steps@ == pre.result.steps@.push(r[0])
    }
}

} // verus!
