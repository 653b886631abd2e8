//! Subscription Manager: the stateful core that decides, for each watch
//! request, whether to create a subscription, queue the node, or add it
//! directly, and that keeps the node/handle bookkeeping consistent.
//!
//! All mutation happens synchronously in response to one message; the
//! remote calls named by the returned actions are performed outside the
//! library, which reports back through further messages.

use vstd::prelude::*;
use crate::browser::BrowsedNode;
use crate::subscription::{
    DataChangeValue, MonitoredData, RegisteredItem, SubscriptionState, find_handle, find_node,
    str_eq, updated_with, STATUS_BAD_WAITING_FOR_INITIAL_DATA,
};

verus! {

/// Action required after a watchlist request.
pub enum SubscriptionAction {
    /// Nothing to do (already tracked, or a creation is in flight).
    NoAction,
    /// Start a subscription-creation task.
    CreateSubscription,
    /// Add these nodes to the existing subscription.
    AddItems(Vec<String>),
}

/// First index in `s` of the monitored item for `node`, or -1.
pub open spec fn find_item(s: Seq<MonitoredData>, node: Seq<char>) -> int
    decreases s.len(),
{
    if s.len() == 0 {
        -1
    } else if s[0].node_id@ == node {
        0
    } else if find_item(s.drop_first(), node) == -1 {
        -1
    } else {
        1 + find_item(s.drop_first(), node)
    }
}

proof fn lemma_find_item_props(s: Seq<MonitoredData>, node: Seq<char>)
    ensures
        -1 <= find_item(s, node) < s.len(),
        find_item(s, node) >= 0 ==> s[find_item(s, node)].node_id@ == node,
        forall|j: int|
            0 <= j < s.len() && (find_item(s, node) == -1 || j < find_item(s, node)) ==> (
            #[trigger] s[j]).node_id@ != node,
    decreases s.len(),
{
    if s.len() > 0 && s[0].node_id@ != node {
        let rest = s.drop_first();
        lemma_find_item_props(rest, node);
        assert(forall|j: int| 1 <= j < s.len() ==> s[j] == #[trigger] rest[j - 1]);
        let f = find_item(s, node);
        assert forall|j: int|
            0 <= j < s.len() && (f == -1 || j < f) implies (#[trigger] s[j]).node_id@
            != node by {
            if j >= 1 {
                assert(s[j] == rest[j - 1]);
            }
        }
    }
}

proof fn lemma_find_item_first(s: Seq<MonitoredData>, node: Seq<char>, i: int)
    requires
        0 <= i < s.len(),
        s[i].node_id@ == node,
        forall|j: int| 0 <= j < i ==> (#[trigger] s[j]).node_id@ != node,
    ensures
        find_item(s, node) == i,
    decreases s.len(),
{
    if s[0].node_id@ == node {
        assert(i == 0);
    } else {
        let rest = s.drop_first();
        assert(forall|j: int| 0 <= j < rest.len() ==> rest[j] == #[trigger] s[j + 1]);
        assert(i >= 1);
        lemma_find_item_first(rest, node, i - 1);
    }
}

proof fn lemma_find_item_absent(s: Seq<MonitoredData>, node: Seq<char>)
    requires
        forall|j: int| 0 <= j < s.len() ==> (#[trigger] s[j]).node_id@ != node,
    ensures
        find_item(s, node) == -1,
    decreases s.len(),
{
    if s.len() > 0 {
        let rest = s.drop_first();
        assert(forall|j: int| 0 <= j < rest.len() ==> rest[j] == #[trigger] s[j + 1]);
        lemma_find_item_absent(rest, node);
    }
}

proof fn lemma_find_item_all(s: Seq<MonitoredData>, node: Seq<char>)
    requires
        find_item(s, node) == -1,
    ensures
        forall|j: int| 0 <= j < s.len() ==> (#[trigger] s[j]).node_id@ != node,
    decreases s.len(),
{
    if s.len() > 0 {
        let rest = s.drop_first();
        lemma_find_item_props(rest, node);
        assert(s[0].node_id@ != node);
        lemma_find_item_all(rest, node);
        assert forall|j: int|
            0 <= j < s.len() implies (#[trigger] s[j]).node_id@ != node by {
            if j >= 1 {
                assert(s[j] == rest[j - 1]);
            }
        }
    }
}

/// A monitored-item record as it is first created for a watch request:
/// no value yet, waiting for initial data.
pub open spec fn fresh_item(item: MonitoredData, node_id: Seq<char>, display: Seq<char>) -> bool {
    &&& item.node_id@ == node_id
    &&& item.display_name@ == display
    &&& item.monitored_item_id is None
    &&& item.value is None
    &&& item.status == STATUS_BAD_WAITING_FOR_INITIAL_DATA
    &&& item.source_timestamp_ms is None
    &&& item.server_timestamp_ms is None
    &&& item.history@.len() == 0
    &&& !item.show_in_trend
    &&& item.trend_color is None
}

/// A monitored-item record once its registration is confirmed: the
/// server item id bound and the status good; nothing else moves.
pub open spec fn marked_good(item: MonitoredData, item_id: u32) -> MonitoredData {
    MonitoredData {
        node_id: item.node_id,
        display_name: item.display_name,
        monitored_item_id: Some(item_id),
        value: item.value,
        status: 0u32,
        source_timestamp_ms: item.source_timestamp_ms,
        server_timestamp_ms: item.server_timestamp_ms,
        history: item.history,
        show_in_trend: item.show_in_trend,
        trend_color: item.trend_color,
    }
}

/// The registration list and the item list after the first `i` pairs of
/// a confirmation batch, applied in order: a pair whose node or handle
/// is already bound, or whose handle was never allocated, is skipped; a
/// fresh pair is appended to the registrations, and its item record,
/// when one exists, is marked good under its server item id.
pub open spec fn spec_pairs_applied(
    entries: Seq<RegisteredItem>,
    items: Seq<MonitoredData>,
    next_handle: u32,
    pairs: Seq<(String, u32, u32)>,
    i: int,
) -> (Seq<RegisteredItem>, Seq<MonitoredData>)
    decreases i,
{
    if i <= 0 {
        (entries, items)
    } else {
        let prev = spec_pairs_applied(entries, items, next_handle, pairs, i - 1);
        let p = pairs[i - 1];
        if find_node(prev.0, p.0@) == -1 && find_handle(prev.0, p.2) == -1 && p.2
            < next_handle {
            let e2 = prev.0.push(RegisteredItem { handle: p.2, node_id: p.0, item_id: p.1 });
            let k = find_item(prev.1, p.0@);
            let it2 = if k >= 0 {
                prev.1.update(k, marked_good(prev.1[k], p.1))
            } else {
                prev.1
            };
            (e2, it2)
        } else {
            prev
        }
    }
}

/// What routing one data change does to the manager: registration
/// state, queue and allocator stand still; a registered handle's item
/// record is overwritten (and a numeric value appended to its bounded
/// history) at some wall-clock reading, a stale handle changes nothing.
pub open spec fn data_change_post(
    pre: SubscriptionManager,
    post: SubscriptionManager,
    handle: u32,
    value: DataChangeValue,
) -> bool {
    &&& post.subscription_state == pre.subscription_state
    &&& post.pending_monitored_items == pre.pending_monitored_items
    &&& post.creating_subscription == pre.creating_subscription
    &&& post.next_client_handle == pre.next_client_handle
    &&& ({
        let entries = pre.subscription_state.entries@;
        let hidx = find_handle(entries, handle);
        let items = pre.monitored_items@;
        if hidx >= 0 {
            ({
                let k = find_item(items, entries[hidx].node_id@);
                if k >= 0 {
                    &&& post.monitored_items@.len() == items.len()
                    &&& forall|j: int|
                        0 <= j < items.len() && j != k ==> post.monitored_items@[j]
                            == items[j]
                    &&& exists|now_ms: i64|
                        updated_with(post.monitored_items@[k], items[k], value, now_ms)
                } else {
                    post.monitored_items@ == items
                }
            })
        } else {
            post.monitored_items@ == items
        }
    })
}

/// What one confirmation batch does to the manager: queue, flag and
/// allocator stand still, and the registrations and item records become
/// the fold of the per-pair registration effect, in order.
pub open spec fn pairs_applied_post(
    pre: SubscriptionManager,
    post: SubscriptionManager,
    pairs: Seq<(String, u32, u32)>,
) -> bool {
    let after = spec_pairs_applied(
        pre.subscription_state.entries@,
        pre.monitored_items@,
        pre.next_client_handle,
        pairs,
        pairs.len() as int,
    );
    &&& post.pending_monitored_items == pre.pending_monitored_items
    &&& post.creating_subscription == pre.creating_subscription
    &&& post.next_client_handle == pre.next_client_handle
    &&& post.subscription_state.subscription_id == pre.subscription_state.subscription_id
    &&& post.monitored_items@.len() == pre.monitored_items@.len()
    &&& post.subscription_state.entries@ == after.0
    &&& post.monitored_items@ == after.1
}

/// Manages the subscription lifecycle and the monitored items.
pub struct SubscriptionManager {
    /// Live monitored items, one per watched node.
    pub monitored_items: Vec<MonitoredData>,
    /// Subscription state tracker.
    pub subscription_state: SubscriptionState,
    /// Nodes waiting for subscription creation.
    pub pending_monitored_items: Vec<String>,
    /// Whether a subscription-creation task is in flight.
    pub creating_subscription: bool,
    /// Next client handle to assign; handles are never reused.
    pub next_client_handle: u32,
}

impl SubscriptionManager {
    /// The manager's invariant: the registration state is well-formed,
    /// watched nodes are unique, histories are bounded, every assigned
    /// handle is below the allocator, and a creation in flight excludes
    /// an active subscription.
    pub open spec fn wf(&self) -> bool {
        &&& self.subscription_state.wf()
        &&& forall|i: int, j: int|
            0 <= i < j < self.monitored_items@.len() ==> (
            #[trigger] self.monitored_items@[i]).node_id@ != (
            #[trigger] self.monitored_items@[j]).node_id@
        &&& forall|i: int|
            0 <= i < self.monitored_items@.len() ==> (
            #[trigger] self.monitored_items@[i]).wf()
        &&& forall|i: int|
            0 <= i < self.subscription_state.entries@.len() ==> (
            #[trigger] self.subscription_state.entries@[i]).handle < self.next_client_handle
        &&& self.creating_subscription ==> self.subscription_state.subscription_id is None
    }

    /// A fresh manager: nothing watched, no subscription.
    pub fn new() -> (r: Self)
        ensures
            r.monitored_items@.len() == 0,
            r.subscription_state.subscription_id is None,
            r.subscription_state.entries@.len() == 0,
            r.pending_monitored_items@.len() == 0,
            !r.creating_subscription,
            r.next_client_handle == 1,
            r.wf(),
    {
        Self {
            monitored_items: Vec::new(),
            subscription_state: SubscriptionState::new(),
            pending_monitored_items: Vec::new(),
            creating_subscription: false,
            next_client_handle: 1,
        }
    }

    /// Clear all state, as on disconnect.  The handle allocator is kept:
    /// handles stay unique for the process lifetime.
    pub fn clear(&mut self)
        ensures
            final(self).monitored_items@.len() == 0,
            final(self).subscription_state.subscription_id is None,
            final(self).subscription_state.entries@.len() == 0,
            final(self).pending_monitored_items@.len() == 0,
            !final(self).creating_subscription,
            final(self).next_client_handle == old(self).next_client_handle,
            final(self).wf(),
    {
        self.monitored_items.clear();
        self.subscription_state.clear();
        self.pending_monitored_items.clear();
        self.creating_subscription = false;
    }

    /// Allocate a fresh client handle: one the registration state has
    /// never seen.
    pub fn allocate_handle(&mut self) -> (h: u32)
        requires
            old(self).wf(),
            old(self).next_client_handle < u32::MAX,
        ensures
            final(self).wf(),
            h == old(self).next_client_handle,
            final(self).next_client_handle == old(self).next_client_handle + 1,
            final(self).monitored_items == old(self).monitored_items,
            final(self).subscription_state == old(self).subscription_state,
            final(self).pending_monitored_items == old(self).pending_monitored_items,
            final(self).creating_subscription == old(self).creating_subscription,
            find_handle(final(self).subscription_state.entries@, h) == -1,
    {
        let h = self.next_client_handle;
        self.next_client_handle = self.next_client_handle + 1;
        proof {
            lemma_absent_when_all_below(self.subscription_state.entries@, h);
        }
        h
    }

    /// Whether a node is already on the watchlist.
    pub fn contains_node(&self, node_id: &str) -> (r: bool)
        ensures
            r == (find_item(self.monitored_items@, node_id@) >= 0),
    {
        proof {
            lemma_find_item_props(self.monitored_items@, node_id@);
        }
        let n = self.monitored_items.len();
        let mut i: usize = 0;
        while i < n
            invariant
                0 <= i <= n,
                n == self.monitored_items@.len(),
                forall|j: int|
                    0 <= j < i ==> (#[trigger] self.monitored_items@[j]).node_id@ != node_id@,
            decreases n - i,
        {
            if str_eq(self.monitored_items[i].node_id.as_str(), node_id) {
                proof {
                    lemma_find_item_first(self.monitored_items@, node_id@, i as int);
                }
                return true;
            }
            i += 1;
        }
        proof {
            lemma_find_item_absent(self.monitored_items@, node_id@);
        }
        false
    }
}

/// What one watch request does: an already-tracked node is a no-op;
/// otherwise its record is created at once, and either the items are
/// added now (subscription active), or the node is queued and the first
/// queued request starts the one subscription creation.
pub open spec fn request_add_post(
    pre: SubscriptionManager,
    node_id: Seq<char>,
    display: Seq<char>,
    post: SubscriptionManager,
    action: SubscriptionAction,
) -> bool {
    if find_item(pre.monitored_items@, node_id) >= 0 {
        &&& post == pre
        &&& action is NoAction
    } else {
        &&& post.monitored_items@.len() == pre.monitored_items@.len() + 1
        &&& forall|k: int|
            0 <= k < pre.monitored_items@.len() ==> post.monitored_items@[k]
                == pre.monitored_items@[k]
        &&& fresh_item(post.monitored_items@.last(), node_id, display)
        &&& post.subscription_state == pre.subscription_state
        &&& post.next_client_handle == pre.next_client_handle
        &&& match pre.subscription_state.subscription_id {
            Some(id) => {
                &&& action matches SubscriptionAction::AddItems(v) && v@.len() == 1 && v@[0]@
                    == node_id
                &&& post.pending_monitored_items == pre.pending_monitored_items
                &&& post.creating_subscription == pre.creating_subscription
            },
            None => {
                &&& post.pending_monitored_items@.len() == pre.pending_monitored_items@.len()
                    + 1
                &&& forall|k: int|
                    0 <= k < pre.pending_monitored_items@.len()
                        ==> post.pending_monitored_items@[k]
                        == pre.pending_monitored_items@[k]
                &&& post.pending_monitored_items@.last()@ == node_id
                &&& if !pre.creating_subscription {
                    action is CreateSubscription && post.creating_subscription
                } else {
                    action is NoAction && post.creating_subscription
                }
            },
        }
    }
}

impl SubscriptionManager {
    /// Ask to watch a node.  Creates its record immediately when new, and
    /// says what remote work must follow.
    pub fn request_add_to_watchlist(&mut self, node: &BrowsedNode) -> (r: SubscriptionAction)
        requires
            old(self).wf(),
        ensures
            final(self).wf(),
            request_add_post(*old(self), node.node_id@, node.display_name@, *final(self), r),
    {
        if self.contains_node(node.node_id.as_str()) {
            return SubscriptionAction::NoAction;
        }
        proof {
            lemma_find_item_props(self.monitored_items@, node.node_id@);
            lemma_find_item_all(self.monitored_items@, node.node_id@);
        }
        let data = MonitoredData::new(node.node_id.clone(), node.display_name.clone());
        let ghost before = self.monitored_items@;
        self.monitored_items.push(data);
        proof {
            assert forall|i: int, j: int|
                0 <= i < j < self.monitored_items@.len() implies (
                #[trigger] self.monitored_items@[i]).node_id@ != (
                #[trigger] self.monitored_items@[j]).node_id@ by {
                if j < before.len() {
                    assert(self.monitored_items@[i] == before[i]);
                    assert(self.monitored_items@[j] == before[j]);
                } else {
                    assert(self.monitored_items@[i] == before[i]);
                }
            }
        }
        let active = self.subscription_state.subscription_id.is_some();
        if active {
            let mut v: Vec<String> = Vec::new();
            v.push(node.node_id.clone());
            SubscriptionAction::AddItems(v)
        } else {
            self.pending_monitored_items.push(node.node_id.clone());
            if !self.creating_subscription {
                self.creating_subscription = true;
                SubscriptionAction::CreateSubscription
            } else {
                SubscriptionAction::NoAction
            }
        }
    }

    /// The subscription-created event: become active under the given id
    /// and flush the pending queue exactly once.
    pub fn handle_subscription_created(&mut self, id: u32) -> (r: SubscriptionAction)
        requires
            old(self).wf(),
        ensures
            final(self).wf(),
            final(self).subscription_state.subscription_id == Some(id),
            !final(self).creating_subscription,
            final(self).pending_monitored_items@.len() == 0,
            final(self).monitored_items == old(self).monitored_items,
            final(self).subscription_state.entries == old(self).subscription_state.entries,
            final(self).next_client_handle == old(self).next_client_handle,
            ({
                let pending = old(self).pending_monitored_items@;
                if pending.len() > 0 {
                    r matches SubscriptionAction::AddItems(v) && v@.len() == pending.len()
                        && forall|k: int| 0 <= k < pending.len() ==> v@[k]@ == pending[k]@
                } else {
                    r is NoAction
                }
            }),
    {
        self.subscription_state.subscription_id = Some(id);
        self.creating_subscription = false;
        let n = self.pending_monitored_items.len();
        if n == 0 {
            return SubscriptionAction::NoAction;
        }
        let mut v: Vec<String> = Vec::new();
        let mut i: usize = 0;
        while i < n
            invariant
                0 <= i <= n,
                n == self.pending_monitored_items@.len(),
                self.pending_monitored_items == old(self).pending_monitored_items,
                self.monitored_items == old(self).monitored_items,
                self.subscription_state.entries == old(self).subscription_state.entries,
                self.subscription_state.subscription_id == Some(id),
                !self.creating_subscription,
                self.next_client_handle == old(self).next_client_handle,
                old(self).wf(),
                v@.len() == i,
                forall|k: int|
                    0 <= k < i ==> v@[k]@ == #[trigger] self.pending_monitored_items@[k]@,
            decreases n - i,
        {
            v.push(self.pending_monitored_items[i].clone());
            i += 1;
        }
        self.pending_monitored_items.clear();
        SubscriptionAction::AddItems(v)
    }

    /// Record one server-confirmed registration: bind node, server item
    /// id and client handle, and mark the item good.  A pair whose
    /// handle or node is already bound, or whose handle was never
    /// allocated, is skipped; it reports whether the pair was taken.
    pub fn register_added_item(&mut self, node_id: String, item_id: u32, handle: u32) -> (taken:
        bool)
        requires
            old(self).wf(),
        ensures
            final(self).wf(),
            final(self).pending_monitored_items == old(self).pending_monitored_items,
            final(self).creating_subscription == old(self).creating_subscription,
            final(self).next_client_handle == old(self).next_client_handle,
            final(self).subscription_state.subscription_id
                == old(self).subscription_state.subscription_id,
            final(self).monitored_items@.len() == old(self).monitored_items@.len(),
            ({
                let entries = old(self).subscription_state.entries@;
                let fresh = find_node(entries, node_id@) == -1 && find_handle(entries, handle)
                    == -1 && handle < old(self).next_client_handle;
                let items = old(self).monitored_items@;
                let k = find_item(items, node_id@);
                if fresh {
                    &&& taken
                    &&& final(self).subscription_state.entries@ == entries.push(
                        RegisteredItem { handle, node_id, item_id },
                    )
                    &&& if k >= 0 {
                        final(self).monitored_items@ == items.update(
                            k,
                            marked_good(items[k], item_id),
                        )
                    } else {
                        final(self).monitored_items@ == items
                    }
                } else {
                    &&& !taken
                    &&& final(self).subscription_state.entries@ == entries
                    &&& final(self).monitored_items@ == items
                }
            }),
    {
        proof {
            lemma_find_item_props(self.monitored_items@, node_id@);
        }
        let entries_fresh = {
            let no_node = self.subscription_state.item_id_of_node(node_id.as_str()).is_none();
            let no_handle = self.subscription_state.get_node_id(handle).is_none();
            no_node && no_handle && handle < self.next_client_handle
        };
        if !entries_fresh {
            return false;
        }
        self.subscription_state.register_item(node_id.clone(), item_id, handle);
        proof {
            assert(self.subscription_state.entries@
                == old(self).subscription_state.entries@.push(
                RegisteredItem { handle, node_id, item_id },
            ));
            // The fresh entry's handle sits below the allocator, like all
            // the old ones.
            assert forall|j: int|
                0 <= j < self.subscription_state.entries@.len() implies (
                #[trigger] self.subscription_state.entries@[j]).handle
                < self.next_client_handle by {
                if j < old(self).subscription_state.entries@.len() {
                    assert(self.subscription_state.entries@[j]
                        == old(self).subscription_state.entries@[j]);
                }
            }
        }
        let ghost state_after = self.subscription_state;
        let n = self.monitored_items.len();
        let mut i: usize = 0;
        while i < n
            invariant
                0 <= i <= n,
                n == self.monitored_items@.len(),
                self.monitored_items == old(self).monitored_items,
                self.subscription_state == state_after,
                state_after.wf(),
                self.pending_monitored_items == old(self).pending_monitored_items,
                self.creating_subscription == old(self).creating_subscription,
                self.next_client_handle == old(self).next_client_handle,
                old(self).wf(),
                find_node(old(self).subscription_state.entries@, node_id@) == -1,
                find_handle(old(self).subscription_state.entries@, handle) == -1,
                handle < old(self).next_client_handle,
                self.subscription_state.entries@
                    == old(self).subscription_state.entries@.push(
                    RegisteredItem { handle, node_id, item_id },
                ),
                forall|j: int|
                    0 <= j < self.subscription_state.entries@.len() ==> (
                    #[trigger] self.subscription_state.entries@[j]).handle
                        < self.next_client_handle,
                self.subscription_state.subscription_id
                    == old(self).subscription_state.subscription_id,
                self.creating_subscription ==> self.subscription_state.subscription_id is None,
                forall|j: int|
                    0 <= j < i ==> (#[trigger] self.monitored_items@[j]).node_id@ != node_id@,
            decreases n - i,
        {
            if str_eq(self.monitored_items[i].node_id.as_str(), node_id.as_str()) {
                proof {
                    lemma_find_item_first(self.monitored_items@, node_id@, i as int);
                }
                let mut item = self.monitored_items.remove(i);
                item.monitored_item_id = Some(item_id);
                item.status = 0;
                let ghost newit = item;
                self.monitored_items.insert(i, item);
                proof {
                    assert(newit == marked_good(
                        old(self).monitored_items@[i as int],
                        item_id,
                    ));
                    assert(self.monitored_items@ =~= old(self).monitored_items@.update(
                        i as int,
                        newit,
                    ));
                    assert forall|j: int|
                        0 <= j < n && j != i as int implies self.monitored_items@[j]
                        == old(self).monitored_items@[j] by {
                        let mid = old(self).monitored_items@.remove(i as int);
                        if j < i as int {
                            assert(mid[j] == old(self).monitored_items@[j]);
                        } else {
                            assert(mid[j - 1] == old(self).monitored_items@[j]);
                        }
                    }
                    assert forall|a: int, b: int|
                        0 <= a < b < self.monitored_items@.len() implies (
                        #[trigger] self.monitored_items@[a]).node_id@ != (
                        #[trigger] self.monitored_items@[b]).node_id@ by {
                        assert(self.monitored_items@[a].node_id
                            == old(self).monitored_items@[a].node_id);
                        assert(self.monitored_items@[b].node_id
                            == old(self).monitored_items@[b].node_id);
                    }
                    assert forall|a: int|
                        0 <= a < self.monitored_items@.len() implies (
                        #[trigger] self.monitored_items@[a]).wf() by {
                        if a != i as int {
                            assert(self.monitored_items@[a]
                                == old(self).monitored_items@[a]);
                        }
                    }
                }
                return true;
            }
            i += 1;
        }
        proof {
            lemma_find_item_absent(self.monitored_items@, node_id@);
        }
        true
    }

    /// The items-added event: register every confirmed pair — into the
    /// registration list and, when the node has a record, by marking
    /// that record good under its server item id.  A pair whose node or
    /// handle is already bound, or whose handle was never allocated, is
    /// skipped rather than overwritten: overwriting would break the
    /// mirrored handle/node maps' bijectivity, which this state promises
    /// to keep; with handles from the allocator and one request per
    /// node, no well-formed confirmation is ever skipped.
    pub fn handle_monitored_items_added(&mut self, pairs: Vec<(String, u32, u32)>)
        requires
            old(self).wf(),
        ensures
            final(self).wf(),
            pairs_applied_post(*old(self), *final(self), pairs@),
    {
        let n = pairs.len();
        let mut i: usize = 0;
        while i < n
            invariant
                0 <= i <= n,
                n == pairs@.len(),
                self.wf(),
                self.pending_monitored_items == old(self).pending_monitored_items,
                self.creating_subscription == old(self).creating_subscription,
                self.next_client_handle == old(self).next_client_handle,
                self.subscription_state.subscription_id
                    == old(self).subscription_state.subscription_id,
                self.monitored_items@.len() == old(self).monitored_items@.len(),
                ({
                    let sofar = spec_pairs_applied(
                        old(self).subscription_state.entries@,
                        old(self).monitored_items@,
                        old(self).next_client_handle,
                        pairs@,
                        i as int,
                    );
                    self.subscription_state.entries@ == sofar.0 && self.monitored_items@
                        == sofar.1
                }),
            decreases n - i,
        {
            let node = pairs[i].0.clone();
            let item_id = pairs[i].1;
            let handle = pairs[i].2;
            proof {
                assert(node == pairs@[i as int].0);
            }
            self.register_added_item(node, item_id, handle);
            i += 1;
        }
    }

    /// Route one data change to the item registered under the handle.
    /// A stale handle (item removed while the notification was in
    /// flight) is dropped without any effect.
    pub fn handle_data_change(&mut self, handle: u32, value: DataChangeValue)
        requires
            old(self).wf(),
        ensures
            final(self).wf(),
            data_change_post(*old(self), *final(self), handle, value),
    {
        proof {
            lemma_find_item_props(
                self.monitored_items@,
                ({
                    let entries = self.subscription_state.entries@;
                    let hidx = find_handle(entries, handle);
                    if hidx >= 0 {
                        entries[hidx].node_id@
                    } else {
                        Seq::<char>::empty()
                    }
                }),
            );
        }
        let node: String = match self.subscription_state.get_node_id(handle) {
            Some(s) => s.clone(),
            None => {
                return ;
            },
        };
        let n = self.monitored_items.len();
        let mut i: usize = 0;
        while i < n
            invariant
                0 <= i <= n,
                n == self.monitored_items@.len(),
                self.wf(),
                self.monitored_items == old(self).monitored_items,
                self.subscription_state == old(self).subscription_state,
                self.pending_monitored_items == old(self).pending_monitored_items,
                self.creating_subscription == old(self).creating_subscription,
                self.next_client_handle == old(self).next_client_handle,
                node@ == ({
                    let entries = old(self).subscription_state.entries@;
                    entries[find_handle(entries, handle)].node_id@
                }),
                find_handle(old(self).subscription_state.entries@, handle) >= 0,
                forall|j: int|
                    0 <= j < i ==> (#[trigger] self.monitored_items@[j]).node_id@ != node@,
            decreases n - i,
        {
            if str_eq(self.monitored_items[i].node_id.as_str(), node.as_str()) {
                proof {
                    lemma_find_item_first(self.monitored_items@, node@, i as int);
                }
                let mut item = self.monitored_items.remove(i);
                let ghost item_before = item;
                item.update(value);
                self.monitored_items.insert(i, item);
                proof {
                    assert(item_before == old(self).monitored_items@[i as int]);
                    assert(self.monitored_items@[i as int] == item);
                    assert forall|j: int|
                        0 <= j < n && j != i as int implies self.monitored_items@[j]
                        == old(self).monitored_items@[j] by {
                        let mid = old(self).monitored_items@.remove(i as int);
                        if j < i as int {
                            assert(mid[j] == old(self).monitored_items@[j]);
                        } else {
                            assert(mid[j - 1] == old(self).monitored_items@[j]);
                        }
                    }
                    assert forall|a: int, b: int|
                        0 <= a < b < self.monitored_items@.len() implies (
                        #[trigger] self.monitored_items@[a]).node_id@ != (
                        #[trigger] self.monitored_items@[b]).node_id@ by {
                        assert(self.monitored_items@[a].node_id
                            == old(self).monitored_items@[a].node_id);
                        assert(self.monitored_items@[b].node_id
                            == old(self).monitored_items@[b].node_id);
                    }
                }
                return ;
            }
            i += 1;
        }
        proof {
            lemma_find_item_absent(self.monitored_items@, node@);
        }
    }

    /// Flip whether a watched node is drawn in the trend display; a node
    /// not on the watchlist is left alone.  Reports the new flag.
    pub fn toggle_trending(&mut self, node_id: &str) -> (r: bool)
        requires
            old(self).wf(),
        ensures
            final(self).wf(),
            final(self).subscription_state == old(self).subscription_state,
            final(self).pending_monitored_items == old(self).pending_monitored_items,
            final(self).creating_subscription == old(self).creating_subscription,
            final(self).next_client_handle == old(self).next_client_handle,
            ({
                let items = old(self).monitored_items@;
                let k = find_item(items, node_id@);
                if k >= 0 {
                    ({
                        let newit = final(self).monitored_items@[k];
                        &&& final(self).monitored_items@.len() == items.len()
                        &&& (forall|j: int|
                            0 <= j < items.len() && j != k
                                ==> #[trigger] final(self).monitored_items@[j] == items[j])
                        &&& newit.show_in_trend == !items[k].show_in_trend
                        &&& newit.node_id == items[k].node_id
                        &&& newit.display_name == items[k].display_name
                        &&& newit.value == items[k].value
                        &&& newit.history == items[k].history
                        &&& newit.trend_color == items[k].trend_color
                        &&& newit.monitored_item_id == items[k].monitored_item_id
                        &&& newit.status == items[k].status
                        &&& r == newit.show_in_trend
                    })
                } else {
                    final(self).monitored_items@ == items && !r
                }
            }),
    {
        proof {
            lemma_find_item_props(self.monitored_items@, node_id@);
        }
        let n = self.monitored_items.len();
        let mut i: usize = 0;
        while i < n
            invariant
                0 <= i <= n,
                n == self.monitored_items@.len(),
                *self == *old(self),
                old(self).wf(),
                forall|j: int|
                    0 <= j < i ==> (#[trigger] self.monitored_items@[j]).node_id@ != node_id@,
            decreases n - i,
        {
            if str_eq(self.monitored_items[i].node_id.as_str(), node_id) {
                proof {
                    lemma_find_item_first(self.monitored_items@, node_id@, i as int);
                }
                let mut item = self.monitored_items.remove(i);
                item.show_in_trend = !item.show_in_trend;
                let shown = item.show_in_trend;
                self.monitored_items.insert(i, item);
                proof {
                    self.lemma_item_field_update(old(self), i as int);
                }
                return shown;
            }
            i += 1;
        }
        proof {
            lemma_find_item_absent(self.monitored_items@, node_id@);
        }
        false
    }

    /// Give a watched node an explicit trend colour; a node not on the
    /// watchlist is left alone.
    pub fn change_trend_color(&mut self, node_id: &str, rgb: [u8; 3])
        requires
            old(self).wf(),
        ensures
            final(self).wf(),
            final(self).subscription_state == old(self).subscription_state,
            final(self).pending_monitored_items == old(self).pending_monitored_items,
            final(self).creating_subscription == old(self).creating_subscription,
            final(self).next_client_handle == old(self).next_client_handle,
            ({
                let items = old(self).monitored_items@;
                let k = find_item(items, node_id@);
                if k >= 0 {
                    ({
                        let newit = final(self).monitored_items@[k];
                        &&& final(self).monitored_items@.len() == items.len()
                        &&& (forall|j: int|
                            0 <= j < items.len() && j != k
                                ==> #[trigger] final(self).monitored_items@[j] == items[j])
                        &&& newit.trend_color == Some(rgb)
                        &&& newit.node_id == items[k].node_id
                        &&& newit.show_in_trend == items[k].show_in_trend
                        &&& newit.history == items[k].history
                        &&& newit.value == items[k].value
                    })
                } else {
                    final(self).monitored_items@ == items
                }
            }),
    {
        proof {
            lemma_find_item_props(self.monitored_items@, node_id@);
        }
        let n = self.monitored_items.len();
        let mut i: usize = 0;
        while i < n
            invariant
                0 <= i <= n,
                n == self.monitored_items@.len(),
                *self == *old(self),
                old(self).wf(),
                forall|j: int|
                    0 <= j < i ==> (#[trigger] self.monitored_items@[j]).node_id@ != node_id@,
            decreases n - i,
        {
            if str_eq(self.monitored_items[i].node_id.as_str(), node_id) {
                proof {
                    lemma_find_item_first(self.monitored_items@, node_id@, i as int);
                }
                let mut item = self.monitored_items.remove(i);
                item.trend_color = Some(rgb);
                self.monitored_items.insert(i, item);
                proof {
                    self.lemma_item_field_update(old(self), i as int);
                }
                return ;
            }
            i += 1;
        }
        proof {
            lemma_find_item_absent(self.monitored_items@, node_id@);
        }
    }

    /// After replacing the item at one index with a copy whose node id,
    /// history and well-formedness are unchanged, the manager invariant
    /// still holds and every other item is untouched.
    proof fn lemma_item_field_update(&self, pre: &Self, k: int)
        requires
            0 <= k < pre.monitored_items@.len(),
            self.monitored_items@ == pre.monitored_items@.remove(k).insert(
                k,
                self.monitored_items@[k],
            ),
            self.monitored_items@.len() == pre.monitored_items@.len(),
            self.monitored_items@[k].node_id == pre.monitored_items@[k].node_id,
            self.monitored_items@[k].history == pre.monitored_items@[k].history,
            pre.wf(),
            self.subscription_state == pre.subscription_state,
            self.pending_monitored_items == pre.pending_monitored_items,
            self.creating_subscription == pre.creating_subscription,
            self.next_client_handle == pre.next_client_handle,
        ensures
            self.wf(),
            forall|j: int|
                0 <= j < pre.monitored_items@.len() && j != k
                    ==> self.monitored_items@[j] == pre.monitored_items@[j],
    {
        assert forall|j: int|
            0 <= j < pre.monitored_items@.len() && j != k implies self.monitored_items@[j]
            == pre.monitored_items@[j] by {
            let mid = pre.monitored_items@.remove(k);
            if j < k {
                assert(mid[j] == pre.monitored_items@[j]);
            } else {
                assert(mid[j - 1] == pre.monitored_items@[j]);
            }
        }
        assert forall|a: int, b: int|
            0 <= a < b < self.monitored_items@.len() implies (
            #[trigger] self.monitored_items@[a]).node_id@ != (
            #[trigger] self.monitored_items@[b]).node_id@ by {
            assert(self.monitored_items@[a].node_id == pre.monitored_items@[a].node_id);
            assert(self.monitored_items@[b].node_id == pre.monitored_items@[b].node_id);
        }
        assert forall|a: int|
            0 <= a < self.monitored_items@.len() implies (
            #[trigger] self.monitored_items@[a]).wf() by {
            if a != k {
                assert(self.monitored_items@[a] == pre.monitored_items@[a]);
            } else {
                assert(self.monitored_items@[k].history == pre.monitored_items@[k].history);
            }
        }
    }

    /// Remove a node from the watchlist: its registration and record go
    /// unconditionally; when a subscription is active and the node was
    /// registered, the server item id to remove remotely is returned.
    pub fn remove_from_watchlist(&mut self, node_id: &str) -> (r: Option<u32>)
        requires
            old(self).wf(),
        ensures
            final(self).wf(),
            final(self).pending_monitored_items == old(self).pending_monitored_items,
            final(self).creating_subscription == old(self).creating_subscription,
            final(self).next_client_handle == old(self).next_client_handle,
            final(self).subscription_state.subscription_id
                == old(self).subscription_state.subscription_id,
            find_item(final(self).monitored_items@, node_id@) == -1,
            find_node(final(self).subscription_state.entries@, node_id@) == -1,
            ({
                let entries = old(self).subscription_state.entries@;
                let idx = find_node(entries, node_id@);
                let items = old(self).monitored_items@;
                let k = find_item(items, node_id@);
                &&& (if idx >= 0 {
                    final(self).subscription_state.entries@ == entries.remove(idx)
                } else {
                    final(self).subscription_state.entries@ == entries
                })
                &&& (if k >= 0 {
                    final(self).monitored_items@ == items.remove(k)
                } else {
                    final(self).monitored_items@ == items
                })
                &&& r == (if idx >= 0
                    && old(self).subscription_state.subscription_id is Some {
                    Some(entries[idx].item_id)
                } else {
                    None::<u32>
                })
            }),
    {
        proof {
            lemma_find_item_props(self.monitored_items@, node_id@);
            crate::subscription::lemma_find_node_props(
                self.subscription_state.entries@,
                node_id@,
            );
        }
        let unregistered = self.subscription_state.unregister_by_node(node_id);
        proof {
            let entries = old(self).subscription_state.entries@;
            let idx = find_node(entries, node_id@);
            if idx >= 0 {
                lemma_entry_removed_absent(entries, node_id@, idx);
            }
            // Every surviving entry's handle is one of the old handles.
            assert forall|j: int|
                0 <= j < self.subscription_state.entries@.len() implies (
                #[trigger] self.subscription_state.entries@[j]).handle
                < self.next_client_handle by {
                if idx >= 0 {
                    let t = self.subscription_state.entries@;
                    assert(t =~= entries.subrange(0, idx) + entries.subrange(
                        idx + 1,
                        entries.len() as int,
                    ));
                    if j < idx {
                        assert(t[j] == entries[j]);
                    } else {
                        assert(t[j] == entries[j + 1]);
                    }
                }
            }
        }
        let ghost state_after = self.subscription_state;
        let n = self.monitored_items.len();
        let mut i: usize = 0;
        while i < n
            invariant
                0 <= i <= n,
                n == self.monitored_items@.len(),
                self.monitored_items@ == old(self).monitored_items@,
                self.subscription_state == state_after,
                state_after.wf(),
                crate::subscription::unregister_post(
                    old(self).subscription_state,
                    state_after,
                    node_id@,
                    unregistered,
                ),
                find_node(state_after.entries@, node_id@) == -1,
                self.pending_monitored_items == old(self).pending_monitored_items,
                self.creating_subscription == old(self).creating_subscription,
                self.next_client_handle == old(self).next_client_handle,
                old(self).wf(),
                forall|j: int|
                    0 <= j < self.subscription_state.entries@.len() ==> (
                    #[trigger] self.subscription_state.entries@[j]).handle
                        < self.next_client_handle,
                self.creating_subscription ==> self.subscription_state.subscription_id is None,
                forall|j: int|
                    0 <= j < i ==> (#[trigger] self.monitored_items@[j]).node_id@ != node_id@,
            decreases n - i,
        {
            if str_eq(self.monitored_items[i].node_id.as_str(), node_id) {
                proof {
                    lemma_find_item_first(self.monitored_items@, node_id@, i as int);
                }
                self.monitored_items.remove(i);
                proof {
                    let items = old(self).monitored_items@;
                    let k = i as int;
                    lemma_item_removed_absent(items, node_id@, k);
                    let t = self.monitored_items@;
                    assert(t =~= items.subrange(0, k) + items.subrange(
                        k + 1,
                        items.len() as int,
                    ));
                    assert forall|a: int, b: int|
                        0 <= a < b < t.len() implies (#[trigger] t[a]).node_id@ != (
                        #[trigger] t[b]).node_id@ by {
                        let a0 = if a < k {
                            a
                        } else {
                            a + 1
                        };
                        let b0 = if b < k {
                            b
                        } else {
                            b + 1
                        };
                        assert(t[a] == items[a0]);
                        assert(t[b] == items[b0]);
                    }
                    assert forall|a: int| 0 <= a < t.len() implies (#[trigger] t[a]).wf() by {
                        if a < k {
                            assert(t[a] == items[a]);
                        } else {
                            assert(t[a] == items[a + 1]);
                        }
                    }
                }
                if self.subscription_state.subscription_id.is_some() {
                    return unregistered;
                } else {
                    return None;
                }
            }
            i += 1;
        }
        proof {
            lemma_find_item_absent(self.monitored_items@, node_id@);
        }
        if self.subscription_state.subscription_id.is_some() {
            unregistered
        } else {
            None
        }
    }
}

/// The triples confirmed among the first `i` creation responses: an
/// entry whose remote status is not good is silently omitted, the rest
/// keep their node, server item id and pre-assigned handle.
pub open spec fn spec_confirmed_prefix(
    nodes: Seq<String>,
    handles: Seq<u32>,
    responses: Seq<(u32, u32)>,
    i: int,
) -> Seq<(String, u32, u32)>
    decreases i,
{
    if i <= 0 {
        Seq::empty()
    } else if responses[i - 1].0 >> 30u32 == 0u32 {
        spec_confirmed_prefix(nodes, handles, responses, i - 1).push(
            (nodes[i - 1], responses[i - 1].1, handles[i - 1]),
        )
    } else {
        spec_confirmed_prefix(nodes, handles, responses, i - 1)
    }
}

/// Apply the gateway's partial-success rule to item-creation responses:
/// for each requested node with its pre-assigned handle, the server's
/// `(status, item id)` answer is kept only when the status is good; bad
/// entries are omitted, not rolled back and not retried.
pub fn confirm_monitored_items(
    nodes: Vec<String>,
    handles: Vec<u32>,
    responses: Vec<(u32, u32)>,
) -> (r: Vec<(String, u32, u32)>)
    requires
        nodes@.len() == handles@.len(),
        nodes@.len() == responses@.len(),
    ensures
        r@ == spec_confirmed_prefix(nodes@, handles@, responses@, nodes@.len() as int),
{
    let n = nodes.len();
    let mut out: Vec<(String, u32, u32)> = Vec::new();
    let mut i: usize = 0;
    while i < n
        invariant
            0 <= i <= n,
            n == nodes@.len(),
            n == handles@.len(),
            n == responses@.len(),
            out@ == spec_confirmed_prefix(nodes@, handles@, responses@, i as int),
        decreases n - i,
    {
        let (status, item_id) = responses[i];
        if status >> 30 == 0 {
            out.push((nodes[i].clone(), item_id, handles[i]));
        }
        i += 1;
    }
    out
}

/// Requests to watch fresh nodes made before any subscription exists
/// start exactly one subscription creation: the first such request
/// returns the create action, and the following ones, arriving while
/// that creation is still in flight, only queue their node.
pub proof fn lemma_subscription_created_once(
    m0: SubscriptionManager,
    n1: Seq<char>,
    d1: Seq<char>,
    m1: SubscriptionManager,
    a1: SubscriptionAction,
    n2: Seq<char>,
    d2: Seq<char>,
    m2: SubscriptionManager,
    a2: SubscriptionAction,
    n3: Seq<char>,
    d3: Seq<char>,
    m3: SubscriptionManager,
    a3: SubscriptionAction,
)
    requires
        m0.subscription_state.subscription_id is None,
        !m0.creating_subscription,
        n2 != n1,
        n3 != n1,
        n3 != n2,
        find_item(m0.monitored_items@, n1) == -1,
        find_item(m0.monitored_items@, n2) == -1,
        find_item(m0.monitored_items@, n3) == -1,
        request_add_post(m0, n1, d1, m1, a1),
        request_add_post(m1, n2, d2, m2, a2),
        request_add_post(m2, n3, d3, m3, a3),
    ensures
        a1 is CreateSubscription,
        a2 is NoAction,
        a3 is NoAction,
        m3.pending_monitored_items@.len() == m0.pending_monitored_items@.len() + 3,
{
    lemma_find_item_all(m0.monitored_items@, n2);
    lemma_find_item_all(m0.monitored_items@, n3);
    assert forall|j: int|
        0 <= j < m1.monitored_items@.len() implies (
        #[trigger] m1.monitored_items@[j]).node_id@ != n2 by {
        if j < m0.monitored_items@.len() {
            assert(m1.monitored_items@[j] == m0.monitored_items@[j]);
        } else {
            assert(m1.monitored_items@[j].node_id@ == n1);
        }
    }
    lemma_find_item_absent(m1.monitored_items@, n2);
    assert forall|j: int|
        0 <= j < m2.monitored_items@.len() implies (
        #[trigger] m2.monitored_items@[j]).node_id@ != n3 by {
        if j < m1.monitored_items@.len() {
            assert(m2.monitored_items@[j] == m1.monitored_items@[j]);
            if j < m0.monitored_items@.len() {
                assert(m1.monitored_items@[j] == m0.monitored_items@[j]);
            } else {
                assert(m1.monitored_items@[j].node_id@ == n1);
            }
        } else {
            assert(m2.monitored_items@[j].node_id@ == n2);
        }
    }
    lemma_find_item_absent(m2.monitored_items@, n3);
}

/// The allocator never hands out a handle twice: a later allocation
/// always returns a strictly larger handle than an earlier one (the
/// counter only grows), and a handle at the counter is registered
/// nowhere, so every assigned handle is fresh for the process lifetime.
pub proof fn lemma_allocator_never_reuses(
    m0: SubscriptionManager,
    h1: u32,
    m1: SubscriptionManager,
    h2: u32,
)
    requires
        m0.wf(),
        h1 == m0.next_client_handle,
        m1.next_client_handle > m0.next_client_handle,
        h2 == m1.next_client_handle,
    ensures
        h2 > h1,
        find_handle(m0.subscription_state.entries@, h1) == -1,
{
    lemma_absent_when_all_below(m0.subscription_state.entries@, h1);
}

/// A handle at or above the allocator bound is registered nowhere.
proof fn lemma_absent_when_all_below(s: Seq<RegisteredItem>, h: u32)
    requires
        forall|i: int| 0 <= i < s.len() ==> (#[trigger] s[i]).handle < h,
    ensures
        find_handle(s, h) == -1,
    decreases s.len(),
{
    if s.len() > 0 {
        let rest = s.drop_first();
        assert(forall|j: int| 0 <= j < rest.len() ==> rest[j] == #[trigger] s[j + 1]);
        lemma_absent_when_all_below(rest, h);
    }
}

/// After removing the entry at the node's index, the node is absent from
/// the registration list (nodes are unique there).
proof fn lemma_entry_removed_absent(s: Seq<RegisteredItem>, node: Seq<char>, idx: int)
    requires
        0 <= idx < s.len(),
        find_node(s, node) == idx,
        forall|i: int, j: int|
            0 <= i < j < s.len() ==> (#[trigger] s[i]).node_id@ != (#[trigger] s[j]).node_id@,
    ensures
        find_node(s.remove(idx), node) == -1,
{
    crate::subscription::lemma_find_node_props(s, node);
    let t = s.remove(idx);
    assert(t =~= s.subrange(0, idx) + s.subrange(idx + 1, s.len() as int));
    assert forall|j: int| 0 <= j < t.len() implies (#[trigger] t[j]).node_id@ != node by {
        if j < idx {
            assert(t[j] == s[j]);
        } else {
            assert(t[j] == s[j + 1]);
            assert(s[idx].node_id@ != s[j + 1].node_id@);
        }
    }
    crate::subscription::lemma_find_node_absent(t, node);
}

/// After removing the item at the node's index, the node is absent from
/// the item list (node ids are unique).
proof fn lemma_item_removed_absent(s: Seq<MonitoredData>, node: Seq<char>, k: int)
    requires
        0 <= k < s.len(),
        find_item(s, node) == k,
        forall|i: int, j: int|
            0 <= i < j < s.len() ==> (#[trigger] s[i]).node_id@ != (#[trigger] s[j]).node_id@,
    ensures
        find_item(s.remove(k), node) == -1,
{
    lemma_find_item_props(s, node);
    let t = s.remove(k);
    assert(t =~= s.subrange(0, k) + s.subrange(k + 1, s.len() as int));
    assert forall|j: int| 0 <= j < t.len() implies (#[trigger] t[j]).node_id@ != node by {
        if j < k {
            assert(t[j] == s[j]);
        } else {
            assert(t[j] == s[j + 1]);
            assert(s[k].node_id@ != s[j + 1].node_id@);
        }
    }
    lemma_find_item_absent(t, node);
}

} // verus!
