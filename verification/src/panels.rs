//! Interface panel state: the connection form with its diagnostic log,
//! the crawler panel, and the panels around the node tree and watchlist.
//! Rendering happens outside the library; the state transitions here are
//! verified.

use vstd::prelude::*;
use crate::browser::BrowsedNode;
use crate::clock::now_unix_millis;
use crate::client::ClientConfig;
use crate::crawler::CrawlConfig;
use crate::diagnostics::{DiagnosticResult, DiagnosticStep, StepId};
use crate::discovery::EndpointInfo;
use crate::bookmarks::{MessageSecurityMode, SecurityPolicy};
use crate::subscription::MonitoredData;
use crate::text::{spec_dec, u64_to_dec};

verus! {

/// Actions requested from the connection panel.
pub enum ConnectionAction {
    Connect(ClientConfig),
    Disconnect,
    StartDiagnostic(String),
    CancelDiagnostic,
}

/// First index in the log with the given step id, or -1.
pub open spec fn find_step(s: Seq<DiagnosticStep>, id: StepId) -> int
    decreases s.len(),
{
    if s.len() == 0 {
        -1
    } else if s[0].id == id {
        0
    } else if find_step(s.drop_first(), id) == -1 {
        -1
    } else {
        1 + find_step(s.drop_first(), id)
    }
}

proof fn lemma_find_step_props(s: Seq<DiagnosticStep>, id: StepId)
    ensures
        -1 <= find_step(s, id) < s.len(),
        find_step(s, id) >= 0 ==> s[find_step(s, id)].id == id,
    decreases s.len(),
{
    if s.len() > 0 && s[0].id != id {
        lemma_find_step_props(s.drop_first(), id);
    }
}

proof fn lemma_find_step_first(s: Seq<DiagnosticStep>, id: StepId, i: int)
    requires
        0 <= i < s.len(),
        s[i].id == id,
        forall|j: int| 0 <= j < i ==> (#[trigger] s[j]).id != id,
    ensures
        find_step(s, id) == i,
    decreases s.len(),
{
    if s[0].id == id {
        assert(i == 0);
    } else {
        let rest = s.drop_first();
        assert(forall|j: int| 0 <= j < rest.len() ==> rest[j] == #[trigger] s[j + 1]);
        assert(i >= 1);
        lemma_find_step_first(rest, id, i - 1);
    }
}

proof fn lemma_find_step_absent(s: Seq<DiagnosticStep>, id: StepId)
    requires
        forall|j: int| 0 <= j < s.len() ==> (#[trigger] s[j]).id != id,
    ensures
        find_step(s, id) == -1,
    decreases s.len(),
{
    if s.len() > 0 {
        let rest = s.drop_first();
        assert(forall|j: int| 0 <= j < rest.len() ==> rest[j] == #[trigger] s[j + 1]);
        lemma_find_step_absent(rest, id);
    }
}

/// State of the connection form and its diagnostic view.
pub struct ConnectionPanel {
    /// Free-form server address typed by the user.
    pub server_input: String,
    /// Chosen security policy.
    pub security_policy: SecurityPolicy,
    /// Chosen security mode.
    pub security_mode: MessageSecurityMode,
    /// Whether credentials are used.
    pub use_auth: bool,
    /// Username, when credentials are used.
    pub username: String,
    /// Password, when credentials are used.
    pub password: String,
    /// Name for a bookmark about to be saved.
    pub bookmark_name: String,
    /// Whether the save-bookmark form is open.
    pub show_add_bookmark: bool,
    /// Whether a connection attempt is running.
    pub is_connecting: bool,
    /// Whether a diagnostic run is in progress.
    pub is_diagnosing: bool,
    /// Step updates shown so far, at most one entry per step id.
    pub diagnostic_log: Vec<DiagnosticStep>,
    /// The finished diagnostic, once it arrives.
    pub diagnostic_result: Option<DiagnosticResult>,
    /// Endpoints found by the last diagnostic.
    pub discovered_endpoints: Vec<EndpointInfo>,
    /// Which endpoint the user picked, if any.
    pub selected_endpoint: Option<usize>,
    /// When the running diagnostic started, milliseconds since the epoch.
    pub diagnostic_start_ms: Option<i64>,
}

impl ConnectionPanel {
    /// The log holds at most one entry per step id.
    pub open spec fn log_wf(&self) -> bool {
        forall|i: int, j: int|
            0 <= i < j < self.diagnostic_log@.len() ==> (
            #[trigger] self.diagnostic_log@[i]).id != (
            #[trigger] self.diagnostic_log@[j]).id
    }

    /// Record one step update: a later update for a step id replaces the
    /// earlier entry, so the visible log keeps at most one entry per
    /// step.
    pub fn add_diagnostic_step(&mut self, step: DiagnosticStep)
        requires
            old(self).log_wf(),
        ensures
            final(self).log_wf(),
            ({
                let k = find_step(old(self).diagnostic_log@, step.id);
                if k >= 0 {
                    final(self).diagnostic_log@ == old(self).diagnostic_log@.update(k, step)
                } else {
                    final(self).diagnostic_log@ == old(self).diagnostic_log@.push(step)
                }
            }),
            final(self).is_diagnosing == old(self).is_diagnosing,
            final(self).diagnostic_result == old(self).diagnostic_result,
            final(self).discovered_endpoints == old(self).discovered_endpoints,
            final(self).selected_endpoint == old(self).selected_endpoint,
            final(self).diagnostic_start_ms == old(self).diagnostic_start_ms,
            final(self).server_input == old(self).server_input,
            final(self).security_policy == old(self).security_policy,
            final(self).security_mode == old(self).security_mode,
            final(self).use_auth == old(self).use_auth,
            final(self).username == old(self).username,
            final(self).password == old(self).password,
            final(self).bookmark_name == old(self).bookmark_name,
            final(self).show_add_bookmark == old(self).show_add_bookmark,
            final(self).is_connecting == old(self).is_connecting,
    {
        let n = self.diagnostic_log.len();
        let mut i: usize = 0;
        while i < n
            invariant
                0 <= i <= n,
                n == self.diagnostic_log@.len(),
                *self == *old(self),
                old(self).log_wf(),
                forall|j: int|
                    0 <= j < i ==> (#[trigger] self.diagnostic_log@[j]).id != step.id,
            decreases n - i,
        {
            if step_id_eq(self.diagnostic_log[i].id, step.id) {
                proof {
                    lemma_find_step_first(self.diagnostic_log@, step.id, i as int);
                }
                let mut entry = self.diagnostic_log.remove(i);
                entry = step;
                self.diagnostic_log.insert(i, entry);
                proof {
                    assert(self.diagnostic_log@ =~= old(self).diagnostic_log@.update(
                        i as int,
                        step,
                    ));
                    assert forall|a: int, b: int|
                        0 <= a < b < self.diagnostic_log@.len() implies (
                        #[trigger] self.diagnostic_log@[a]).id != (
                        #[trigger] self.diagnostic_log@[b]).id by {
                        assert(self.diagnostic_log@[a].id == old(self).diagnostic_log@[a].id
                            || a == i as int);
                        assert(self.diagnostic_log@[b].id == old(self).diagnostic_log@[b].id
                            || b == i as int);
                    }
                }
                return ;
            }
            i += 1;
        }
        proof {
            lemma_find_step_absent(self.diagnostic_log@, step.id);
        }
        let ghost before = self.diagnostic_log@;
        self.diagnostic_log.push(step);
        proof {
            assert forall|a: int, b: int|
                0 <= a < b < self.diagnostic_log@.len() implies (
                #[trigger] self.diagnostic_log@[a]).id != (
                #[trigger] self.diagnostic_log@[b]).id by {
                if b < before.len() {
                    assert(self.diagnostic_log@[a] == before[a]);
                    assert(self.diagnostic_log@[b] == before[b]);
                } else {
                    assert(self.diagnostic_log@[a] == before[a]);
                }
            }
        }
    }

    /// Store the finished diagnostic: the run is over, and its
    /// endpoints become the list the user can pick from.
    pub fn set_diagnostic_result(&mut self, result: DiagnosticResult)
        ensures
            !final(self).is_diagnosing,
            final(self).diagnostic_start_ms is None,
            final(self).diagnostic_result == Some(result),
            final(self).discovered_endpoints@.len() == result.endpoints@.len(),
            forall|i: int|
                0 <= i < result.endpoints@.len() ==> endpoint_like(
                    #[trigger] final(self).discovered_endpoints@[i],
                    result.endpoints@[i],
                ),
            final(self).diagnostic_log == old(self).diagnostic_log,
            final(self).selected_endpoint == old(self).selected_endpoint,
            final(self).server_input == old(self).server_input,
            final(self).security_policy == old(self).security_policy,
            final(self).security_mode == old(self).security_mode,
            final(self).use_auth == old(self).use_auth,
            final(self).username == old(self).username,
            final(self).password == old(self).password,
            final(self).bookmark_name == old(self).bookmark_name,
            final(self).show_add_bookmark == old(self).show_add_bookmark,
            final(self).is_connecting == old(self).is_connecting,
    {
        self.is_diagnosing = false;
        self.discovered_endpoints = duplicate_endpoints(&result.endpoints);
        self.diagnostic_result = Some(result);
        self.diagnostic_start_ms = None;
    }

    /// Forget everything about the last diagnostic.
    pub fn reset_diagnostic(&mut self)
        ensures
            !final(self).is_diagnosing,
            final(self).diagnostic_log@.len() == 0,
            final(self).diagnostic_result is None,
            final(self).discovered_endpoints@.len() == 0,
            final(self).selected_endpoint is None,
            final(self).diagnostic_start_ms is None,
            final(self).log_wf(),
    {
        self.is_diagnosing = false;
        self.diagnostic_log.clear();
        self.diagnostic_result = None;
        self.discovered_endpoints.clear();
        self.selected_endpoint = None;
        self.diagnostic_start_ms = None;
    }

    /// Begin a diagnostic run: fresh log, started now.
    pub fn start_diagnostic(&mut self)
        ensures
            final(self).is_diagnosing,
            final(self).diagnostic_log@.len() == 0,
            final(self).diagnostic_result is None,
            final(self).diagnostic_start_ms is Some,
            final(self).log_wf(),
    {
        self.is_diagnosing = true;
        self.diagnostic_log.clear();
        self.diagnostic_result = None;
        self.diagnostic_start_ms = Some(now_unix_millis());
    }

    /// Record whether a connection attempt is running.
    pub fn set_connecting(&mut self, connecting: bool)
        ensures
            final(self).is_connecting == connecting,
            final(self).diagnostic_log == old(self).diagnostic_log,
            final(self).is_diagnosing == old(self).is_diagnosing,
    {
        self.is_connecting = connecting;
    }

    /// Whether the form takes input: not connected, not busy, and no
    /// connection attempt or diagnostic running.
    pub fn is_interactive(&self, is_connected: bool, app_busy: bool) -> (r: bool)
        ensures
            r == (!is_connected && !app_busy && !self.is_connecting && !self.is_diagnosing),
    {
        !is_connected && !app_busy && !self.is_connecting && !self.is_diagnosing
    }

    /// Seconds elapsed since the diagnostic started, rendered as "Ns";
    /// nothing when no diagnostic is running.
    pub fn get_elapsed_str(&self) -> (r: Option<String>)
        ensures
            (r is Some) == (self.diagnostic_start_ms is Some),
            match r {
                Some(s) => exists|secs: int|
                    0 <= secs && s@ == #[trigger] spec_dec(secs) + "s"@,
                None => true,
            },
    {
        match self.diagnostic_start_ms {
            Some(start) => {
                let now = now_unix_millis();
                let elapsed_ms: i128 = if now > start {
                    (now as i128) - (start as i128)
                } else {
                    0
                };
                let secs = (elapsed_ms / 1000) as u64;
                let mut out = u64_to_dec(secs);
                out.append("s");
                proof {
                    assert(0 <= secs as int && out@ == spec_dec(secs as int) + "s"@);
                }
                Some(out)
            },
            None => None,
        }
    }
}

/// Compare two step ids.
fn step_id_eq(a: StepId, b: StepId) -> (r: bool)
    ensures
        r == (a == b),
{
    match (a, b) {
        (StepId::ValidateInput, StepId::ValidateInput) => true,
        (StepId::ResolveDns, StepId::ResolveDns) => true,
        (StepId::ScanPorts, StepId::ScanPorts) => true,
        (StepId::DiscoverEndpoints, StepId::DiscoverEndpoints) => true,
        _ => false,
    }
}

/// Two endpoint records carrying the same data.
pub open spec fn endpoint_like(a: EndpointInfo, b: EndpointInfo) -> bool {
    &&& a.security_policy_name == b.security_policy_name
    &&& a.security_mode == b.security_mode
    &&& a.has_certificate == b.has_certificate
    &&& a.user_tokens@ == b.user_tokens@
    &&& a.endpoint_url == b.endpoint_url
}

/// Copy an endpoint list, field for field.
fn duplicate_endpoints(v: &Vec<EndpointInfo>) -> (r: Vec<EndpointInfo>)
    ensures
        r@.len() == v@.len(),
        forall|i: int| 0 <= i < v@.len() ==> endpoint_like(#[trigger] r@[i], v@[i]),
{
    let n = v.len();
    let mut out: Vec<EndpointInfo> = Vec::new();
    let mut i: usize = 0;
    while i < n
        invariant
            0 <= i <= n,
            n == v@.len(),
            out@.len() == i,
            forall|k: int| 0 <= k < i ==> endpoint_like(#[trigger] out@[k], v@[k]),
        decreases n - i,
    {
        let e = &v[i];
        let mut tokens: Vec<String> = Vec::new();
        let m = e.user_tokens.len();
        let mut j: usize = 0;
        while j < m
            invariant
                0 <= j <= m,
                m == e.user_tokens@.len(),
                tokens@.len() == j,
                forall|k: int| 0 <= k < j ==> #[trigger] tokens@[k] == e.user_tokens@[k],
            decreases m - j,
        {
            tokens.push(e.user_tokens[j].clone());
            j += 1;
        }
        proof {
            assert(tokens@ =~= e.user_tokens@);
        }
        out.push(
            EndpointInfo {
                security_policy_name: e.security_policy_name.clone(),
                security_mode: e.security_mode.clone(),
                has_certificate: e.has_certificate,
                user_tokens: tokens,
                endpoint_url: e.endpoint_url.clone(),
            },
        );
        i += 1;
    }
    out
}

impl Default for ConnectionPanel {
    /// An empty form with no security and no diagnostic.
    fn default() -> (r: Self)
        ensures
            r.server_input@.len() == 0,
            r.security_policy == SecurityPolicy::NoSecurity,
            r.security_mode == MessageSecurityMode::NoSecurity,
            !r.use_auth,
            !r.is_connecting,
            !r.is_diagnosing,
            r.diagnostic_log@.len() == 0,
            r.diagnostic_result is None,
            r.discovered_endpoints@.len() == 0,
            r.selected_endpoint is None,
            r.diagnostic_start_ms is None,
            r.log_wf(),
    {
        ConnectionPanel {
            server_input: String::new(),
            security_policy: SecurityPolicy::NoSecurity,
            security_mode: MessageSecurityMode::NoSecurity,
            use_auth: false,
            username: String::new(),
            password: String::new(),
            bookmark_name: String::new(),
            show_add_bookmark: false,
            is_connecting: false,
            is_diagnosing: false,
            diagnostic_log: Vec::new(),
            diagnostic_result: None,
            discovered_endpoints: Vec::new(),
            selected_endpoint: None,
            diagnostic_start_ms: None,
        }
    }
}

/// Actions from the crawler panel.
pub enum CrawlerAction {
    StartCrawl(CrawlConfig),
    ExportJson,
    ExportCsv,
    JumpToNode(String),
}

/// State for the crawler panel.
pub struct CrawlerPanel {
    /// Crawl configuration edited by the user.
    pub config: CrawlConfig,
    /// Results of the last crawl.
    pub results: Vec<BrowsedNode>,
    /// Whether a crawl is in progress.
    pub is_crawling: bool,
    /// Status message.
    pub status: String,
    /// When the running crawl started, milliseconds since the epoch.
    pub start_time_ms: Option<i64>,
}

impl Default for CrawlerPanel {
    /// Depth five, a large node allowance, starting at the root folder.
    fn default() -> (r: Self)
        ensures
            r.config.max_depth == 5,
            r.config.max_nodes == 500000,
            r.results@.len() == 0,
            !r.is_crawling,
            r.status@.len() == 0,
            r.start_time_ms is None,
    {
        CrawlerPanel {
            config: CrawlConfig {
                max_depth: 5,
                max_nodes: 500000,
                start_node: "i=84".to_owned(),
            },
            results: Vec::new(),
            is_crawling: false,
            status: String::new(),
            start_time_ms: None,
        }
    }
}

/// Actions requested by the monitor panel.
pub enum MonitorAction {
    /// Remove an item from the watchlist.
    Remove(String),
    /// Toggle trending for an item.
    ToggleTrend(String),
    /// Change the trend colour for an item.
    ChangeColor(String, [u8; 3]),
    /// Export the watchlist as CSV.
    ExportCsv,
    /// Export the watchlist as JSON.
    ExportJson,
}

/// Monitor panel state.
#[derive(Default)]
pub struct MonitorPanel;

/// Actions triggered from the properties panel.
pub enum PropertiesAction {
    AddToWatchlist(BrowsedNode),
}

/// Properties panel, borrowing the current selection.
pub struct PropertiesPanel<'a> {
    /// The node shown, if one is selected.
    pub selected_node: &'a Option<BrowsedNode>,
    /// Its live record, when it is being watched.
    pub monitored_data: Option<&'a MonitoredData>,
}

impl<'a> PropertiesPanel<'a> {
    /// View over the current selection.
    pub fn new(
        selected_node: &'a Option<BrowsedNode>,
        monitored_data: Option<&'a MonitoredData>,
    ) -> (r: Self)
        ensures
            r.selected_node == selected_node,
            r.monitored_data == monitored_data,
    {
        Self { selected_node, monitored_data }
    }
}

/// Actions from the node tree.
pub enum TreeViewAction {
    Select(BrowsedNode),
    Expand(String),
    ExportJson(BrowsedNode),
    ExportCsv(BrowsedNode),
    AddToWatchlist(BrowsedNode),
}

/// The node tree, borrowing the cache of loaded children.
pub struct TreeView<'a> {
    /// Loaded children per parent node id.
    pub node_cache: &'a Vec<(String, Vec<BrowsedNode>)>,
    /// The selected node id, if any.
    pub selected_node_id: &'a Option<String>,
}

impl<'a> TreeView<'a> {
    /// View over the cache and the selection.
    pub fn new(
        node_cache: &'a Vec<(String, Vec<BrowsedNode>)>,
        selected_node_id: &'a Option<String>,
    ) -> (r: Self)
        ensures
            r.node_cache == node_cache,
            r.selected_node_id == selected_node_id,
    {
        Self { node_cache, selected_node_id }
    }
}

/// Trending panel state.
pub struct TrendingPanel {
    /// Selected time window in seconds.
    pub time_window: u64,
}

impl Default for TrendingPanel {
    /// A one-minute window.
    fn default() -> (r: Self)
        ensures
            r.time_window == 60,
    {
        TrendingPanel { time_window: 60 }
    }
}

} // verus!
