//! Application core: the state shared by the panels and the reducer that
//! mutates it in response to messages from background work.
//!
//! Background tasks never touch this state; they send one of the tagged
//! messages below, and the single consumer applies it here.  The remote
//! calls that must follow a message come back as explicit follow-up work
//! for the caller to spawn.

use vstd::prelude::*;
use crate::browser::BrowsedNode;
use crate::client::ClientConfig;
use crate::diagnostics::{DiagnosticResult, DiagnosticStep};
use crate::error_panel::{ErrorPanel, ErrorSeverity};
use crate::i18n::{t, Language, T};
use crate::panels::{endpoint_like, find_step, ConnectionPanel, CrawlerPanel};
use crate::subscription::DataChangeValue;
use crate::subscription_manager::{
    data_change_post, pairs_applied_post, SubscriptionAction, SubscriptionManager,
};
use crate::text::{fill_marker, u64_to_dec};

verus! {

/// Current status of the application.
#[derive(Debug, Clone)]
pub enum AppStatus {
    Idle,
    Busy { task_name: String, start_time_ms: i64 },
}

impl Default for AppStatus {
    /// Idle.
    fn default() -> (r: Self)
        ensures
            r is Idle,
    {
        AppStatus::Idle
    }
}

/// Current connection state.
#[derive(Debug, Clone)]
pub enum ConnectionState {
    Disconnected,
    Connected { endpoint: String },
    Error(String),
}

impl Default for ConnectionState {
    /// Disconnected.
    fn default() -> (r: Self)
        ensures
            r is Disconnected,
    {
        ConnectionState::Disconnected
    }
}

/// Messages sent from background tasks to the application core.
#[derive(Debug)]
pub enum BackendMessage {
    /// Session established successfully.
    SessionEstablished { endpoint: String },
    /// Session closed.
    SessionClosed,
    /// Browse result: parent node id and its children, or the error.
    BrowseResult(String, Result<Vec<BrowsedNode>, String>),
    /// Error message to display.
    Error(String),
    /// Status message update.
    StatusMessage(String),
    /// Live data change: client handle and the new value.
    DataChange(u32, DataChangeValue),
    /// Subscription created under this id.
    SubscriptionCreated(u32),
    /// Monitored items confirmed: (node id, server item id, handle).
    MonitoredItemsAdded(Vec<(String, u32, u32)>),
    /// Crawl finished with these nodes, or failed.
    CrawlResult(Result<Vec<BrowsedNode>, String>),
    /// Diagnostic step progress.
    DiagnosticStep(DiagnosticStep),
    /// Diagnostic finished.
    DiagnosticComplete(DiagnosticResult),
}

/// Messages sent to background tasks.
#[derive(Debug)]
pub enum TaskMessage {
    /// Check network connectivity of an address.
    CheckNetwork(String),
    /// Discover endpoints at a URL.
    DiscoverEndpoints(String),
    /// Connect with this configuration.
    Connect(ClientConfig),
    /// Disconnect from the server.
    Disconnect,
    /// Browse a node.
    Browse(String),
}

/// Remote work that must follow a processed message.
pub enum FollowUp {
    /// Browse the address-space root (after a session is established).
    BrowseRoot,
    /// Add these queued nodes to the fresh subscription.
    AddPendingItems(Vec<String>),
}

/// The identifier of the address-space root folder.
pub fn root_node_id() -> (r: &'static str)
    ensures
        r@ == "i=84"@,
{
    "i=84"
}

/// The application state the reducer maintains.
pub struct AppModel {
    /// Connection state.
    pub connection_state: ConnectionState,
    /// Status bar text.
    pub status_message: String,
    /// Top-level nodes under the root.
    pub root_nodes: Vec<BrowsedNode>,
    /// Loaded children per parent node id, unique per parent.
    pub node_cache: Vec<(String, Vec<BrowsedNode>)>,
    /// The selected node, if any.
    pub selected_node: Option<BrowsedNode>,
    /// Subscription and watchlist state.
    pub subscription_manager: SubscriptionManager,
    /// Connection form and diagnostic view.
    pub connection_panel: ConnectionPanel,
    /// Crawler panel state.
    pub crawler_panel: CrawlerPanel,
    /// Error notifications.
    pub error_panel: ErrorPanel,
    /// Whether the connection panel is open.
    pub show_connection_panel: bool,
    /// Interface language.
    pub current_lang: Language,
}

/// First index in the cache with the given parent id, or -1.
pub open spec fn find_cached(s: Seq<(String, Vec<BrowsedNode>)>, parent: Seq<char>) -> int
    decreases s.len(),
{
    if s.len() == 0 {
        -1
    } else if s[0].0@ == parent {
        0
    } else if find_cached(s.drop_first(), parent) == -1 {
        -1
    } else {
        1 + find_cached(s.drop_first(), parent)
    }
}

proof fn lemma_find_cached_first(s: Seq<(String, Vec<BrowsedNode>)>, parent: Seq<char>, i: int)
    requires
        0 <= i < s.len(),
        s[i].0@ == parent,
        forall|j: int| 0 <= j < i ==> (#[trigger] s[j]).0@ != parent,
    ensures
        find_cached(s, parent) == i,
    decreases s.len(),
{
    if s[0].0@ == parent {
        assert(i == 0);
    } else {
        let rest = s.drop_first();
        assert(forall|j: int| 0 <= j < rest.len() ==> rest[j] == #[trigger] s[j + 1]);
        assert(i >= 1);
        lemma_find_cached_first(rest, parent, i - 1);
    }
}

proof fn lemma_find_cached_absent(s: Seq<(String, Vec<BrowsedNode>)>, parent: Seq<char>)
    requires
        forall|j: int| 0 <= j < s.len() ==> (#[trigger] s[j]).0@ != parent,
    ensures
        find_cached(s, parent) == -1,
    decreases s.len(),
{
    if s.len() > 0 {
        let rest = s.drop_first();
        assert(forall|j: int| 0 <= j < rest.len() ==> rest[j] == #[trigger] s[j + 1]);
        lemma_find_cached_absent(rest, parent);
    }
}

/// Where one browse result lands: the root's children replace the root
/// list; any other parent's children replace that parent's cache entry,
/// or add one at the end; no other cache entry moves.
pub open spec fn browse_stored(
    pre: AppModel,
    post: AppModel,
    parent: String,
    nodes: Vec<BrowsedNode>,
) -> bool {
    &&& (parent@ == "i=84"@ ==> post.root_nodes == nodes && post.node_cache == pre.node_cache)
    &&& (parent@ != "i=84"@ ==> post.root_nodes == pre.root_nodes && ({
        let k = find_cached(pre.node_cache@, parent@);
        let cache = post.node_cache@;
        if k >= 0 {
            &&& cache.len() == pre.node_cache@.len()
            &&& cache[k].0 == pre.node_cache@[k].0
            &&& cache[k].1 == nodes
            &&& (forall|j: int|
                0 <= j < cache.len() && j != k ==> #[trigger] cache[j] == pre.node_cache@[j])
        } else {
            &&& cache.len() == pre.node_cache@.len() + 1
            &&& cache.last().0 == parent
            &&& cache.last().1 == nodes
            &&& (forall|j: int|
                0 <= j < pre.node_cache@.len() ==> #[trigger] cache[j] == pre.node_cache@[j])
        }
    }))
}

/// The connection fields, the caches and the selection stand still.
pub open spec fn core_state_unchanged(pre: AppModel, post: AppModel) -> bool {
    &&& post.connection_state == pre.connection_state
    &&& post.status_message == pre.status_message
    &&& post.root_nodes == pre.root_nodes
    &&& post.node_cache == pre.node_cache
    &&& post.selected_node == pre.selected_node
    &&& post.show_connection_panel == pre.show_connection_panel
}

impl AppModel {
    /// The model's invariant: the manager, the diagnostic log and the
    /// error list are well-formed, and cached parents are unique.
    pub open spec fn wf(&self) -> bool {
        &&& self.subscription_manager.wf()
        &&& self.connection_panel.log_wf()
        &&& self.error_panel.wf()
        &&& forall|i: int, j: int|
            0 <= i < j < self.node_cache@.len() ==> (#[trigger] self.node_cache@[i]).0@ != (
            #[trigger] self.node_cache@[j]).0@
    }

    /// A fresh model: disconnected, nothing loaded, nothing watched.
    pub fn new(lang: Language) -> (r: Self)
        ensures
            r.connection_state is Disconnected,
            r.root_nodes@.len() == 0,
            r.node_cache@.len() == 0,
            r.selected_node is None,
            r.show_connection_panel,
            r.wf(),
    {
        AppModel {
            connection_state: ConnectionState::Disconnected,
            status_message: t(T::ReadyNotConnected, lang).to_owned(),
            root_nodes: Vec::new(),
            node_cache: Vec::new(),
            selected_node: None,
            subscription_manager: SubscriptionManager::new(),
            connection_panel: ConnectionPanel::default(),
            crawler_panel: CrawlerPanel::default(),
            error_panel: ErrorPanel::new(),
            show_connection_panel: true,
            current_lang: lang,
        }
    }

    /// Store a browse result: children of the root replace the root
    /// list; children of any other parent replace that parent's cache
    /// entry, or add one.
    fn store_browse_result(&mut self, parent: String, nodes: Vec<BrowsedNode>)
        requires
            old(self).wf(),
        ensures
            final(self).wf(),
            browse_stored(*old(self), *final(self), parent, nodes),
            final(self).subscription_manager == old(self).subscription_manager,
            final(self).connection_panel == old(self).connection_panel,
            final(self).error_panel == old(self).error_panel,
            final(self).crawler_panel == old(self).crawler_panel,
            final(self).connection_state == old(self).connection_state,
            final(self).status_message == old(self).status_message,
            final(self).selected_node == old(self).selected_node,
            final(self).show_connection_panel == old(self).show_connection_panel,
            final(self).current_lang == old(self).current_lang,
    {
        if crate::subscription::str_eq(parent.as_str(), root_node_id()) {
            self.root_nodes = nodes;
            return ;
        }
        let n = self.node_cache.len();
        let mut i: usize = 0;
        while i < n
            invariant
                0 <= i <= n,
                n == self.node_cache@.len(),
                *self == *old(self),
                old(self).wf(),
                parent@ != "i=84"@,
                forall|j: int| 0 <= j < i ==> (#[trigger] self.node_cache@[j]).0@ != parent@,
            decreases n - i,
        {
            if crate::subscription::str_eq(self.node_cache[i].0.as_str(), parent.as_str()) {
                proof {
                    lemma_find_cached_first(self.node_cache@, parent@, i as int);
                }
                let mut entry = self.node_cache.remove(i);
                entry.1 = nodes;
                self.node_cache.insert(i, entry);
                proof {
                    assert forall|j: int|
                        0 <= j < self.node_cache@.len() && j != i as int
                            implies #[trigger] self.node_cache@[j] == old(
                        self,
                    ).node_cache@[j] by {
                        let mid = old(self).node_cache@.remove(i as int);
                        if j < i as int {
                            assert(mid[j] == old(self).node_cache@[j]);
                        } else {
                            assert(mid[j - 1] == old(self).node_cache@[j]);
                        }
                    }
                    assert forall|a: int, b: int|
                        0 <= a < b < self.node_cache@.len() implies (
                        #[trigger] self.node_cache@[a]).0@ != (
                        #[trigger] self.node_cache@[b]).0@ by {
                        assert(self.node_cache@[a].0 == old(self).node_cache@[a].0);
                        assert(self.node_cache@[b].0 == old(self).node_cache@[b].0);
                    }
                }
                return ;
            }
            i += 1;
        }
        proof {
            lemma_find_cached_absent(self.node_cache@, parent@);
        }
        let ghost before = self.node_cache@;
        self.node_cache.push((parent, nodes));
        proof {
            assert forall|a: int, b: int|
                0 <= a < b < self.node_cache@.len() implies (
                #[trigger] self.node_cache@[a]).0@ != (#[trigger] self.node_cache@[b]).0@ by {
                if b < before.len() {
                    assert(self.node_cache@[a] == before[a]);
                    assert(self.node_cache@[b] == before[b]);
                } else {
                    assert(self.node_cache@[a] == before[a]);
                }
            }
        }
    }

    /// Apply one backend message, exactly as the single consumer does:
    /// session events tear state down or up, subscription events drive
    /// the manager, panel events drive their panels.  The returned
    /// follow-up names the remote work the caller must spawn.
    pub fn process_backend_message(&mut self, msg: BackendMessage) -> (r: Option<FollowUp>)
        requires
            old(self).wf(),
        ensures
            final(self).wf(),
            final(self).current_lang == old(self).current_lang,
            match msg {
                BackendMessage::SessionEstablished { endpoint } => {
                    &&& final(self).connection_state matches ConnectionState::Connected {
                        endpoint: e,
                    } && e == endpoint
                    &&& !final(self).show_connection_panel
                    &&& final(self).subscription_manager.monitored_items@.len() == 0
                    &&& final(self).root_nodes@.len() == 0
                    &&& r is Some && r->0 is BrowseRoot
                },
                BackendMessage::SessionClosed => {
                    &&& final(self).connection_state is Disconnected
                    &&& final(self).show_connection_panel
                    &&& final(self).subscription_manager.monitored_items@.len() == 0
                    &&& final(self).subscription_manager.subscription_state.entries@.len()
                        == 0
                    &&& final(self).root_nodes@.len() == 0
                    &&& final(self).node_cache@.len() == 0
                    &&& r is None
                },
                BackendMessage::SubscriptionCreated(id) => {
                    &&& final(self).subscription_manager.subscription_state.subscription_id
                        == Some(id)
                    &&& !final(self).subscription_manager.creating_subscription
                    &&& final(self).subscription_manager.pending_monitored_items@.len() == 0
                    &&& final(self).subscription_manager.monitored_items
                        == old(self).subscription_manager.monitored_items
                    &&& final(self).subscription_manager.subscription_state.entries
                        == old(self).subscription_manager.subscription_state.entries
                    &&& core_state_unchanged(*old(self), *final(self))
                    &&& ({
                        let pending = old(
                            self,
                        ).subscription_manager.pending_monitored_items@;
                        if pending.len() > 0 {
                            r matches Some(FollowUp::AddPendingItems(v)) && v@.len()
                                == pending.len() && forall|k: int|
                                0 <= k < pending.len() ==> v@[k]@ == #[trigger] pending[k]@
                        } else {
                            r is None
                        }
                    })
                },
                BackendMessage::Error(e) => {
                    &&& final(self).connection_state is Error
                    &&& !final(self).subscription_manager.creating_subscription
                    &&& final(self).error_panel.notifications@.len() > 0
                    &&& r is None
                },
                BackendMessage::StatusMessage(s) => {
                    &&& final(self).status_message == s
                    &&& r is None
                },
                BackendMessage::BrowseResult(parent, outcome) => {
                    &&& r is None
                    &&& final(self).subscription_manager == old(self).subscription_manager
                    &&& final(self).connection_panel == old(self).connection_panel
                    &&& final(self).error_panel == old(self).error_panel
                    &&& final(self).crawler_panel == old(self).crawler_panel
                    &&& final(self).show_connection_panel == old(self).show_connection_panel
                    &&& final(self).selected_node == old(self).selected_node
                    &&& final(self).connection_state == old(self).connection_state
                    &&& match outcome {
                        Ok(nodes) => final(self).status_message == old(self).status_message
                            && browse_stored(*old(self), *final(self), parent, nodes),
                        Err(e) => {
                            &&& final(self).status_message@ == "Browse error: "@ + e@
                            &&& final(self).root_nodes == old(self).root_nodes
                            &&& final(self).node_cache == old(self).node_cache
                        },
                    }
                },
                BackendMessage::DataChange(handle, value) => {
                    &&& r is None
                    &&& core_state_unchanged(*old(self), *final(self))
                    &&& final(self).connection_panel == old(self).connection_panel
                    &&& final(self).error_panel == old(self).error_panel
                    &&& final(self).crawler_panel == old(self).crawler_panel
                    &&& data_change_post(
                        old(self).subscription_manager,
                        final(self).subscription_manager,
                        handle,
                        value,
                    )
                },
                BackendMessage::MonitoredItemsAdded(pairs) => {
                    &&& r is None
                    &&& core_state_unchanged(*old(self), *final(self))
                    &&& final(self).connection_panel == old(self).connection_panel
                    &&& final(self).error_panel == old(self).error_panel
                    &&& final(self).crawler_panel == old(self).crawler_panel
                    &&& pairs_applied_post(
                        old(self).subscription_manager,
                        final(self).subscription_manager,
                        pairs@,
                    )
                },
                BackendMessage::CrawlResult(outcome) => {
                    &&& r is None
                    &&& core_state_unchanged(*old(self), *final(self))
                    &&& final(self).subscription_manager == old(self).subscription_manager
                    &&& final(self).connection_panel == old(self).connection_panel
                    &&& final(self).error_panel == old(self).error_panel
                    &&& !final(self).crawler_panel.is_crawling
                    &&& final(self).crawler_panel.config == old(self).crawler_panel.config
                    &&& final(self).crawler_panel.start_time_ms == old(
                        self,
                    ).crawler_panel.start_time_ms
                    &&& match outcome {
                        Ok(nodes) => final(self).crawler_panel.results == nodes,
                        Err(e) => final(self).crawler_panel.results == old(
                            self,
                        ).crawler_panel.results,
                    }
                },
                BackendMessage::DiagnosticStep(step) => {
                    &&& r is None
                    &&& core_state_unchanged(*old(self), *final(self))
                    &&& final(self).subscription_manager == old(self).subscription_manager
                    &&& final(self).error_panel == old(self).error_panel
                    &&& final(self).crawler_panel == old(self).crawler_panel
                    &&& ({
                        let log = old(self).connection_panel.diagnostic_log@;
                        let k = find_step(log, step.id);
                        if k >= 0 {
                            final(self).connection_panel.diagnostic_log@ == log.update(
                                k,
                                step,
                            )
                        } else {
                            final(self).connection_panel.diagnostic_log@ == log.push(step)
                        }
                    })
                    &&& final(self).connection_panel.is_diagnosing == old(
                        self,
                    ).connection_panel.is_diagnosing
                    &&& final(self).connection_panel.diagnostic_result == old(
                        self,
                    ).connection_panel.diagnostic_result
                },
                BackendMessage::DiagnosticComplete(result) => {
                    &&& r is None
                    &&& core_state_unchanged(*old(self), *final(self))
                    &&& final(self).subscription_manager == old(self).subscription_manager
                    &&& final(self).error_panel == old(self).error_panel
                    &&& final(self).crawler_panel == old(self).crawler_panel
                    &&& !final(self).connection_panel.is_diagnosing
                    &&& final(self).connection_panel.diagnostic_result == Some(result)
                    &&& final(self).connection_panel.discovered_endpoints@.len()
                        == result.endpoints@.len()
                    &&& (forall|i: int|
                        0 <= i < result.endpoints@.len() ==> endpoint_like(
                            #[trigger] final(self).connection_panel.discovered_endpoints@[i],
                            result.endpoints@[i],
                        ))
                    &&& final(self).connection_panel.diagnostic_log == old(
                        self,
                    ).connection_panel.diagnostic_log
                },
            },
    {
        match msg {
            BackendMessage::SessionEstablished { endpoint } => {
                let status = fill_marker(t(T::ConnectedTo, self.current_lang), endpoint.as_str());
                self.connection_state = ConnectionState::Connected { endpoint };
                self.status_message = status;
                self.connection_panel.set_connecting(false);
                self.show_connection_panel = false;
                self.teardown_keep_connection();
                Some(FollowUp::BrowseRoot)
            },
            BackendMessage::SessionClosed => {
                self.connection_state = ConnectionState::Disconnected;
                self.status_message = t(T::Disconnected, self.current_lang).to_owned();
                self.connection_panel.set_connecting(false);
                self.teardown_keep_connection();
                self.show_connection_panel = true;
                self.error_panel.add_error(
                    t(T::ServerDisconnected, self.current_lang).to_owned(),
                    ErrorSeverity::Warning,
                );
                None
            },
            BackendMessage::BrowseResult(parent, outcome) => {
                match outcome {
                    Ok(nodes) => {
                        self.store_browse_result(parent, nodes);
                    },
                    Err(e) => {
                        let mut s = "Browse error: ".to_owned();
                        s.append(e.as_str());
                        self.status_message = s;
                    },
                }
                None
            },
            BackendMessage::Error(e) => {
                let mut s = "Error: ".to_owned();
                s.append(e.as_str());
                self.status_message = s;
                self.connection_state = ConnectionState::Error(e.clone());
                self.connection_panel.set_connecting(false);
                self.subscription_manager.creating_subscription = false;
                self.error_panel.add_error(e, ErrorSeverity::Error);
                None
            },
            BackendMessage::StatusMessage(s) => {
                self.status_message = s;
                None
            },
            BackendMessage::DataChange(handle, value) => {
                self.subscription_manager.handle_data_change(handle, value);
                None
            },
            BackendMessage::SubscriptionCreated(id) => {
                let action = self.subscription_manager.handle_subscription_created(id);
                match action {
                    SubscriptionAction::AddItems(v) => Some(FollowUp::AddPendingItems(v)),
                    _ => None,
                }
            },
            BackendMessage::MonitoredItemsAdded(pairs) => {
                self.subscription_manager.handle_monitored_items_added(pairs);
                None
            },
            BackendMessage::CrawlResult(outcome) => {
                self.crawler_panel.is_crawling = false;
                match outcome {
                    Ok(nodes) => {
                        let count = u64_to_dec(nodes.len() as u64);
                        self.crawler_panel.results = nodes;
                        self.crawler_panel.status = fill_marker(
                            t(T::CrawlComplete, self.current_lang),
                            count.as_str(),
                        );
                    },
                    Err(e) => {
                        self.crawler_panel.status = fill_marker(
                            t(T::CrawlFailed, self.current_lang),
                            e.as_str(),
                        );
                    },
                }
                None
            },
            BackendMessage::DiagnosticStep(step) => {
                self.connection_panel.add_diagnostic_step(step);
                None
            },
            BackendMessage::DiagnosticComplete(result) => {
                self.connection_panel.set_diagnostic_result(result);
                None
            },
        }
    }

    /// Clear caches, selection and subscription state, leaving the
    /// connection fields alone.
    fn teardown_keep_connection(&mut self)
        requires
            old(self).subscription_manager.wf(),
        ensures
            final(self).root_nodes@.len() == 0,
            final(self).node_cache@.len() == 0,
            final(self).selected_node is None,
            final(self).subscription_manager.monitored_items@.len() == 0,
            final(self).subscription_manager.subscription_state.subscription_id is None,
            final(self).subscription_manager.subscription_state.entries@.len() == 0,
            final(self).subscription_manager.pending_monitored_items@.len() == 0,
            !final(self).subscription_manager.creating_subscription,
            final(self).subscription_manager.wf(),
            final(self).connection_panel == old(self).connection_panel,
            final(self).error_panel == old(self).error_panel,
            final(self).crawler_panel == old(self).crawler_panel,
            final(self).connection_state == old(self).connection_state,
            final(self).status_message == old(self).status_message,
            final(self).show_connection_panel == old(self).show_connection_panel,
            final(self).current_lang == old(self).current_lang,
    {
        self.root_nodes.clear();
        self.node_cache.clear();
        self.selected_node = None;
        self.subscription_manager.clear();
    }
}

} // verus!
