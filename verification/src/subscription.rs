//! Subscription bookkeeping for real-time data monitoring: monitored-item
//! records with a bounded value history, and the handle/node/item-id
//! registration state.
//!
//! Values coming off the wire are modelled as plain data
//! ([`VariantValue`]); floating-point samples are carried as their IEEE-754
//! bit patterns together with the text rendered where they were decoded.

use vstd::prelude::*;
use crate::clock::now_unix_millis;
use crate::text::{spec_dec, u64_to_dec};

verus! {

/// Maximum number of history points kept per monitored item.
pub const MAX_HISTORY_POINTS: usize = 600;

/// A value carried by a data-change notification, as plain data.
#[derive(Debug, Clone)]
pub enum VariantValue {
    Empty,
    Bool(bool),
    SByte(i8),
    Byte(u8),
    Int16(i16),
    UInt16(u16),
    Int32(i32),
    UInt32(u32),
    Int64(i64),
    UInt64(u64),
    /// A 32-bit float: its bit pattern, and the text rendered where the
    /// value was decoded (the library carries floats only as bits).
    Float { bits: u32, rendered: String },
    /// A 64-bit float: bit pattern and rendered text.
    Double { bits: u64, rendered: String },
    /// Any non-numeric kind (strings, dates, byte strings, ...), rendered
    /// as text where the value was decoded.
    Text(String),
}

/// A numeric sample for the trend history, keeping the source value.
#[derive(Debug, Clone, Copy, PartialEq, Eq, Structural)]
pub enum NumericSample {
    Bool(bool),
    Signed(i64),
    Unsigned(u64),
    Float(u32),
    Double(u64),
}

/// The numeric part of a value: booleans and all integer and float kinds
/// are trendable, everything else is not.
pub open spec fn spec_numeric_part(v: VariantValue) -> Option<NumericSample> {
    match v {
        VariantValue::Empty => None,
        VariantValue::Bool(b) => Some(NumericSample::Bool(b)),
        VariantValue::SByte(x) => Some(NumericSample::Signed(x as i64)),
        VariantValue::Byte(x) => Some(NumericSample::Unsigned(x as u64)),
        VariantValue::Int16(x) => Some(NumericSample::Signed(x as i64)),
        VariantValue::UInt16(x) => Some(NumericSample::Unsigned(x as u64)),
        VariantValue::Int32(x) => Some(NumericSample::Signed(x as i64)),
        VariantValue::UInt32(x) => Some(NumericSample::Unsigned(x as u64)),
        VariantValue::Int64(x) => Some(NumericSample::Signed(x)),
        VariantValue::UInt64(x) => Some(NumericSample::Unsigned(x)),
        VariantValue::Float { bits, rendered } => Some(NumericSample::Float(bits)),
        VariantValue::Double { bits, rendered } => Some(NumericSample::Double(bits)),
        VariantValue::Text(s) => None,
    }
}

/// The numeric part of a value, for the trend history.
pub fn numeric_part(v: &VariantValue) -> (r: Option<NumericSample>)
    ensures
        r == spec_numeric_part(*v),
{
    match v {
        VariantValue::Empty => None,
        VariantValue::Bool(b) => Some(NumericSample::Bool(*b)),
        VariantValue::SByte(x) => Some(NumericSample::Signed(*x as i64)),
        VariantValue::Byte(x) => Some(NumericSample::Unsigned(*x as u64)),
        VariantValue::Int16(x) => Some(NumericSample::Signed(*x as i64)),
        VariantValue::UInt16(x) => Some(NumericSample::Unsigned(*x as u64)),
        VariantValue::Int32(x) => Some(NumericSample::Signed(*x as i64)),
        VariantValue::UInt32(x) => Some(NumericSample::Unsigned(*x as u64)),
        VariantValue::Int64(x) => Some(NumericSample::Signed(*x)),
        VariantValue::UInt64(x) => Some(NumericSample::Unsigned(*x)),
        VariantValue::Float { bits, rendered } => Some(NumericSample::Float(*bits)),
        VariantValue::Double { bits, rendered } => Some(NumericSample::Double(*bits)),
        VariantValue::Text(s) => None,
    }
}

/// Signed decimal text: a '-' sign for negative numbers.
pub open spec fn spec_signed_dec(n: int) -> Seq<char> {
    if n < 0 {
        "-"@ + spec_dec(-n)
    } else {
        spec_dec(n)
    }
}

/// Decimal form of a signed number.
pub fn i64_to_dec(n: i64) -> (r: String)
    ensures
        r@ == spec_signed_dec(n as int),
{
    if n >= 0 {
        u64_to_dec(n as u64)
    } else {
        let neg: u64 = if n == i64::MIN {
            9223372036854775808u64
        } else {
            (-n) as u64
        };
        let mut out = "-".to_owned();
        let digits = u64_to_dec(neg);
        out.append(digits.as_str());
        out
    }
}

/// What `format_variant` returns for each kind of value.
pub open spec fn spec_format_variant(v: VariantValue) -> Seq<char> {
    match v {
        VariantValue::Empty => "Empty"@,
        VariantValue::Bool(b) => if b {
            "true"@
        } else {
            "false"@
        },
        VariantValue::SByte(x) => spec_signed_dec(x as int),
        VariantValue::Byte(x) => spec_dec(x as int),
        VariantValue::Int16(x) => spec_signed_dec(x as int),
        VariantValue::UInt16(x) => spec_dec(x as int),
        VariantValue::Int32(x) => spec_signed_dec(x as int),
        VariantValue::UInt32(x) => spec_dec(x as int),
        VariantValue::Int64(x) => spec_signed_dec(x as int),
        VariantValue::UInt64(x) => spec_dec(x as int),
        VariantValue::Float { bits, rendered } => rendered@,
        VariantValue::Double { bits, rendered } => rendered@,
        VariantValue::Text(s) => s@,
    }
}

/// Format a value for display: numbers in decimal, floats and other kinds
/// by the text rendered where they were decoded.
pub fn format_variant(v: &VariantValue) -> (r: String)
    ensures
        r@ == spec_format_variant(*v),
{
    match v {
        VariantValue::Empty => "Empty".to_owned(),
        VariantValue::Bool(b) => if *b {
            "true".to_owned()
        } else {
            "false".to_owned()
        },
        VariantValue::SByte(x) => i64_to_dec(*x as i64),
        VariantValue::Byte(x) => u64_to_dec(*x as u64),
        VariantValue::Int16(x) => i64_to_dec(*x as i64),
        VariantValue::UInt16(x) => u64_to_dec(*x as u64),
        VariantValue::Int32(x) => i64_to_dec(*x as i64),
        VariantValue::UInt32(x) => u64_to_dec(*x as u64),
        VariantValue::Int64(x) => i64_to_dec(*x),
        VariantValue::UInt64(x) => u64_to_dec(*x),
        VariantValue::Float { bits, rendered } => rendered.clone(),
        VariantValue::Double { bits, rendered } => rendered.clone(),
        VariantValue::Text(s) => s.clone(),
    }
}

/// A data-change notification's payload, as plain values; timestamps are
/// milliseconds since the Unix epoch.
#[derive(Debug, Clone)]
pub struct DataChangeValue {
    /// The new value, when one came.
    pub value: Option<VariantValue>,
    /// The status code, when one came.
    pub status: Option<u32>,
    /// Source timestamp.
    pub source_timestamp_ms: Option<i64>,
    /// Server timestamp.
    pub server_timestamp_ms: Option<i64>,
}

/// Message carrying one data change to the dispatcher.
#[derive(Debug, Clone)]
pub struct DataChangeNotification {
    /// Node whose value changed.
    pub node_id: String,
    /// The new data value.
    pub data_value: DataChangeValue,
}

/// Status code meaning "waiting for initial data".
pub const STATUS_BAD_WAITING_FOR_INITIAL_DATA: u32 = 0x80320000;

/// Data for a single monitored item.
#[derive(Debug, Clone)]
pub struct MonitoredData {
    /// Node identifier, in string form.
    pub node_id: String,
    /// Display name for the interface.
    pub display_name: String,
    /// The monitored item id assigned by the server, once registered.
    pub monitored_item_id: Option<u32>,
    /// Current value.
    pub value: Option<VariantValue>,
    /// Current status code.
    pub status: u32,
    /// Source timestamp of the value, milliseconds since the epoch.
    pub source_timestamp_ms: Option<i64>,
    /// Server timestamp of the value.
    pub server_timestamp_ms: Option<i64>,
    /// Historical numeric samples for trending, oldest first.  Sample
    /// times are whole milliseconds since the Unix epoch: the model
    /// keeps integral milliseconds where a rendering layer may show
    /// fractional seconds.
    pub history: std::collections::VecDeque<(i64, NumericSample)>,
    /// Whether this item is drawn in the trend display.
    pub show_in_trend: bool,
    /// Trend colour; when absent one is derived from the node id.
    pub trend_color: Option<[u8; 3]>,
}

/// The history ring after pushing one sample: the oldest entries beyond
/// the capacity are evicted from the front.
pub open spec fn spec_after_push(
    h: Seq<(i64, NumericSample)>,
    x: (i64, NumericSample),
) -> Seq<(i64, NumericSample)> {
    let h2 = h.push(x);
    if h2.len() > MAX_HISTORY_POINTS {
        h2.subrange(h2.len() - MAX_HISTORY_POINTS, h2.len() as int)
    } else {
        h2
    }
}

/// The timestamp recorded for a sample, in milliseconds since the Unix
/// epoch: the source timestamp when the notification carries one, else
/// the given wall-clock reading.
pub open spec fn spec_sample_ts(dv: DataChangeValue, now_ms: i64) -> i64 {
    match dv.source_timestamp_ms {
        Some(ts) => ts,
        None => now_ms,
    }
}

/// How one data change turns an item's old record into its new one.
pub open spec fn updated_with(
    new: MonitoredData,
    old: MonitoredData,
    dv: DataChangeValue,
    now_ms: i64,
) -> bool {
    &&& new.node_id == old.node_id
    &&& new.display_name == old.display_name
    &&& new.monitored_item_id == old.monitored_item_id
    &&& new.show_in_trend == old.show_in_trend
    &&& new.trend_color == old.trend_color
    &&& new.value == dv.value
    &&& new.status == (match dv.status {
        Some(s) => s,
        None => 0u32,
    })
    &&& new.source_timestamp_ms == dv.source_timestamp_ms
    &&& new.server_timestamp_ms == dv.server_timestamp_ms
    &&& (match dv.value {
        Some(v) => match spec_numeric_part(v) {
            Some(ns) => new.history@ == spec_after_push(
                old.history@,
                (spec_sample_ts(dv, now_ms), ns),
            ),
            None => new.history@ == old.history@,
        },
        None => new.history@ == old.history@,
    })
}

impl MonitoredData {
    /// The bounded-history invariant.
    pub open spec fn wf(&self) -> bool {
        self.history@.len() <= MAX_HISTORY_POINTS
    }

    /// A fresh record for a node just added to the watchlist: no value
    /// yet, status "waiting for initial data", empty history.
    pub fn new(node_id: String, display_name: String) -> (r: Self)
        ensures
            r.node_id == node_id,
            r.display_name == display_name,
            r.monitored_item_id is None,
            r.value is None,
            r.status == STATUS_BAD_WAITING_FOR_INITIAL_DATA,
            r.source_timestamp_ms is None,
            r.server_timestamp_ms is None,
            r.history@.len() == 0,
            !r.show_in_trend,
            r.trend_color is None,
            r.wf(),
    {
        Self {
            node_id,
            display_name,
            monitored_item_id: None,
            value: None,
            status: STATUS_BAD_WAITING_FOR_INITIAL_DATA,
            source_timestamp_ms: None,
            server_timestamp_ms: None,
            history: std::collections::VecDeque::new(),
            show_in_trend: false,
            trend_color: None,
        }
    }

    /// Whether the current value can be trended (is numeric).
    pub fn is_trendable(&self) -> (r: bool)
        ensures
            r == match self.value {
                Some(v) => spec_numeric_part(v) is Some,
                None => false,
            },
    {
        match &self.value {
            Some(v) => numeric_part(v).is_some(),
            None => false,
        }
    }

    /// Apply one data change with an explicit wall-clock reading: value,
    /// status and timestamps are overwritten, and a numeric value is
    /// appended to the bounded history (oldest sample evicted first).
    pub fn apply_update(&mut self, dv: DataChangeValue, now_ms: i64)
        requires
            old(self).wf(),
        ensures
            updated_with(*final(self), *old(self), dv, now_ms),
            final(self).wf(),
    {
        self.value = dv.value;
        self.status = match dv.status {
            Some(s) => s,
            None => 0,
        };
        self.source_timestamp_ms = dv.source_timestamp_ms;
        self.server_timestamp_ms = dv.server_timestamp_ms;
        let numeric = match &self.value {
            Some(v) => numeric_part(v),
            None => None,
        };
        if let Some(ns) = numeric {
            let ts = match dv.source_timestamp_ms {
                Some(t) => t,
                None => now_ms,
            };
            self.history.push_back((ts, ns));
            if self.history.len() > MAX_HISTORY_POINTS {
                self.history.pop_front();
                proof {
                    assert(self.history@ =~= spec_after_push(
                        old(self).history@,
                        (ts, ns),
                    ));
                }
            }
        }
    }

    /// Apply one data change, timing fallback samples by the wall clock.
    pub fn update(&mut self, dv: DataChangeValue)
        requires
            old(self).wf(),
        ensures
            exists|now_ms: i64| updated_with(*final(self), *old(self), dv, now_ms),
            final(self).wf(),
    {
        let now_ms = now_unix_millis();
        self.apply_update(dv, now_ms);
    }

    /// The current value formatted for display, "---" when none came yet.
    pub fn value_string(&self) -> (r: String)
        ensures
            r@ == match self.value {
                Some(v) => spec_format_variant(v),
                None => "---"@,
            },
    {
        match &self.value {
            Some(v) => format_variant(v),
            None => "---".to_owned(),
        }
    }

    /// Quality icon: "OK" for a good status, "?" for uncertain, "!" else.
    pub fn quality_icon(&self) -> (r: &'static str)
        ensures
            self.status >> 30u32 == 0u32 ==> r@ == "OK"@,
            self.status >> 30u32 == 1u32 ==> r@ == "?"@,
            self.status >> 30u32 >= 2u32 ==> r@ == "!"@,
    {
        match self.status >> 30 {
            0 => "OK",
            1 => "?",
            _ => "!",
        }
    }
}

/// One registration: client handle, node, server-assigned item id.
#[derive(Debug, Clone)]
pub struct RegisteredItem {
    pub handle: u32,
    pub node_id: String,
    pub item_id: u32,
}

/// First index in `s` whose handle is `handle`, or -1.
pub open spec fn find_handle(s: Seq<RegisteredItem>, handle: u32) -> int
    decreases s.len(),
{
    if s.len() == 0 {
        -1
    } else if s[0].handle == handle {
        0
    } else if find_handle(s.drop_first(), handle) == -1 {
        -1
    } else {
        1 + find_handle(s.drop_first(), handle)
    }
}

/// First index in `s` whose node is `node`, or -1.
pub open spec fn find_node(s: Seq<RegisteredItem>, node: Seq<char>) -> int
    decreases s.len(),
{
    if s.len() == 0 {
        -1
    } else if s[0].node_id@ == node {
        0
    } else if find_node(s.drop_first(), node) == -1 {
        -1
    } else {
        1 + find_node(s.drop_first(), node)
    }
}

/// What unregistering one node does to the registration state: the
/// node's entry goes, with its server-assigned item id reported (the
/// value best-effort remote removal uses); nothing else moves.
pub open spec fn unregister_post(
    pre: SubscriptionState,
    post: SubscriptionState,
    node: Seq<char>,
    r: Option<u32>,
) -> bool {
    let idx = find_node(pre.entries@, node);
    &&& post.subscription_id == pre.subscription_id
    &&& match r {
        Some(id) => idx >= 0 && id == pre.entries@[idx].item_id && post.entries@
            == pre.entries@.remove(idx),
        None => idx == -1 && post.entries@ == pre.entries@,
    }
}

/// Tracker for the active subscription and its registered items.
///
/// The entry list stands for three co-maintained maps at once —
/// handle to node, node to handle, handle to server item id — and the
/// well-formedness invariant keeps the first two bijective.
#[derive(Debug)]
pub struct SubscriptionState {
    /// Active subscription id, if any.
    pub subscription_id: Option<u32>,
    /// Registered monitored items.
    pub entries: Vec<RegisteredItem>,
}

impl SubscriptionState {
    /// No two entries share a handle, and no two share a node.
    pub open spec fn wf(&self) -> bool {
        forall|i: int, j: int|
            0 <= i < j < self.entries@.len() ==> (#[trigger] self.entries@[i]).handle != (
            #[trigger] self.entries@[j]).handle && self.entries@[i].node_id@
                != self.entries@[j].node_id@
    }

    /// Fresh state: no subscription, nothing registered.
    pub fn new() -> (r: Self)
        ensures
            r.subscription_id is None,
            r.entries@.len() == 0,
            r.wf(),
    {
        Self { subscription_id: None, entries: Vec::new() }
    }

    /// Register a new monitored item under a fresh handle and node.
    pub fn register_item(&mut self, node_id: String, monitored_item_id: u32, handle: u32)
        requires
            old(self).wf(),
            find_handle(old(self).entries@, handle) == -1,
            find_node(old(self).entries@, node_id@) == -1,
        ensures
            final(self).wf(),
            final(self).subscription_id == old(self).subscription_id,
            final(self).entries@ == old(self).entries@.push(
                RegisteredItem { handle, node_id, item_id: monitored_item_id },
            ),
    {
        proof {
            lemma_find_handle_absent(self.entries@, handle);
            lemma_find_node_all(self.entries@, node_id@);
        }
        let ghost before = self.entries@;
        self.entries.push(RegisteredItem { handle, node_id, item_id: monitored_item_id });
        proof {
            assert forall|i: int, j: int|
                0 <= i < j < self.entries@.len() implies (#[trigger] self.entries@[i]).handle
                != (#[trigger] self.entries@[j]).handle && self.entries@[i].node_id@
                != self.entries@[j].node_id@ by {
                if j < before.len() {
                    assert(before[i].handle != before[j].handle);
                } else {
                    assert(self.entries@[i] == before[i]);
                    assert(before[i].handle != handle);
                    assert(before[i].node_id@ != node_id@);
                }
            }
        }
    }

    /// Unregister a node; when it was registered, its server-assigned
    /// item id is returned, for the best-effort remote removal.  Every
    /// other registration is left exactly as it was.
    pub fn unregister_by_node(&mut self, node_id: &str) -> (r: Option<u32>)
        requires
            old(self).wf(),
        ensures
            final(self).wf(),
            unregister_post(*old(self), *final(self), node_id@, r),
    {
        proof {
            lemma_find_node_props(self.entries@, node_id@);
        }
        let n = self.entries.len();
        let mut i: usize = 0;
        while i < n
            invariant
                0 <= i <= n,
                n == self.entries@.len(),
                self.entries@ == old(self).entries@,
                self.subscription_id == old(self).subscription_id,
                old(self).wf(),
                forall|j: int| 0 <= j < i ==> (#[trigger] self.entries@[j]).node_id@ != node_id@,
            decreases n - i,
        {
            if str_eq(self.entries[i].node_id.as_str(), node_id) {
                proof {
                    lemma_find_node_first(self.entries@, node_id@, i as int);
                }
                let id = self.entries[i].item_id;
                let ghost before = self.entries@;
                self.entries.remove(i);
                proof {
                    let idx = i as int;
                    assert(self.entries@ =~= before.remove(idx));
                    assert(self.entries@ =~= before.subrange(0, idx) + before.subrange(
                        idx + 1,
                        before.len() as int,
                    ));
                    assert forall|a: int, b: int|
                        0 <= a < b < self.entries@.len() implies (
                        #[trigger] self.entries@[a]).handle != (
                        #[trigger] self.entries@[b]).handle && self.entries@[a].node_id@
                        != self.entries@[b].node_id@ by {
                        let a0 = if a < idx {
                            a
                        } else {
                            a + 1
                        };
                        let b0 = if b < idx {
                            b
                        } else {
                            b + 1
                        };
                        assert(self.entries@[a] == before[a0]);
                        assert(self.entries@[b] == before[b0]);
                        assert(before[a0].handle != before[b0].handle);
                    }
                }
                return Some(id);
            }
            i += 1;
        }
        proof {
            lemma_find_node_absent(self.entries@, node_id@);
        }
        None
    }

    /// The server item id registered for a node, if any.
    pub fn item_id_of_node(&self, node_id: &str) -> (r: Option<u32>)
        requires
            self.wf(),
        ensures
            ({
                let idx = find_node(self.entries@, node_id@);
                match r {
                    Some(id) => idx >= 0 && id == self.entries@[idx].item_id,
                    None => idx == -1,
                }
            }),
    {
        proof {
            lemma_find_node_props(self.entries@, node_id@);
        }
        let n = self.entries.len();
        let mut i: usize = 0;
        while i < n
            invariant
                0 <= i <= n,
                n == self.entries@.len(),
                self.wf(),
                forall|j: int| 0 <= j < i ==> (#[trigger] self.entries@[j]).node_id@ != node_id@,
            decreases n - i,
        {
            if str_eq(self.entries[i].node_id.as_str(), node_id) {
                proof {
                    lemma_find_node_first(self.entries@, node_id@, i as int);
                }
                return Some(self.entries[i].item_id);
            }
            i += 1;
        }
        proof {
            lemma_find_node_absent(self.entries@, node_id@);
        }
        None
    }

    /// Clear everything: subscription id and all registrations.
    pub fn clear(&mut self)
        ensures
            final(self).subscription_id is None,
            final(self).entries@.len() == 0,
            final(self).wf(),
    {
        self.subscription_id = None;
        self.entries.clear();
    }

    /// The node registered under a handle, if any.
    pub fn get_node_id(&self, handle: u32) -> (r: Option<&String>)
        requires
            self.wf(),
        ensures
            ({
                let idx = find_handle(self.entries@, handle);
                match r {
                    Some(s) => idx >= 0 && s@ == self.entries@[idx].node_id@,
                    None => idx == -1,
                }
            }),
    {
        proof {
            lemma_find_handle_props(self.entries@, handle);
        }
        let n = self.entries.len();
        let mut i: usize = 0;
        while i < n
            invariant
                0 <= i <= n,
                n == self.entries@.len(),
                self.wf(),
                forall|j: int| 0 <= j < i ==> (#[trigger] self.entries@[j]).handle != handle,
            decreases n - i,
        {
            if self.entries[i].handle == handle {
                proof {
                    lemma_find_handle_first(self.entries@, handle, i as int);
                }
                return Some(&self.entries[i].node_id);
            }
            i += 1;
        }
        proof {
            lemma_find_handle_absent_rev(self.entries@, handle);
        }
        None
    }
}

impl Default for SubscriptionState {
    /// Same as `new`.
    fn default() -> (r: Self)
        ensures
            r.subscription_id is None,
            r.entries@.len() == 0,
            r.wf(),
    {
        Self::new()
    }
}

/// Compare two strings character for character.
pub fn str_eq(a: &str, b: &str) -> (r: bool)
    ensures
        r == (a@ == b@),
{
    let n = a.unicode_len();
    let m = b.unicode_len();
    if n != m {
        return false;
    }
    let mut i: usize = 0;
    while i < n
        invariant
            0 <= i <= n,
            n == a@.len(),
            n == b@.len(),
            forall|j: int| 0 <= j < i ==> a@[j] == b@[j],
        decreases n - i,
    {
        if a.get_char(i) != b.get_char(i) {
            return false;
        }
        i += 1;
    }
    proof {
        assert(a@ =~= b@);
    }
    true
}

pub proof fn lemma_find_node_props(s: Seq<RegisteredItem>, node: Seq<char>)
    ensures
        -1 <= find_node(s, node) < s.len(),
        find_node(s, node) >= 0 ==> s[find_node(s, node)].node_id@ == node,
        forall|j: int|
            0 <= j < s.len() && (find_node(s, node) == -1 || j < find_node(s, node)) ==> (
            #[trigger] s[j]).node_id@ != node,
    decreases s.len(),
{
    if s.len() > 0 && s[0].node_id@ != node {
        let rest = s.drop_first();
        lemma_find_node_props(rest, node);
        assert(forall|j: int| 1 <= j < s.len() ==> s[j] == #[trigger] rest[j - 1]);
        let f = find_node(s, node);
        assert forall|j: int|
            0 <= j < s.len() && (f == -1 || j < f) implies (#[trigger] s[j]).node_id@
            != node by {
            if j >= 1 {
                assert(s[j] == rest[j - 1]);
            }
        }
    }
}

pub proof fn lemma_find_node_first(s: Seq<RegisteredItem>, node: Seq<char>, i: int)
    requires
        0 <= i < s.len(),
        s[i].node_id@ == node,
        forall|j: int| 0 <= j < i ==> (#[trigger] s[j]).node_id@ != node,
    ensures
        find_node(s, node) == i,
    decreases s.len(),
{
    if s[0].node_id@ == node {
        assert(i == 0);
    } else {
        let rest = s.drop_first();
        assert(forall|j: int| 0 <= j < rest.len() ==> rest[j] == #[trigger] s[j + 1]);
        assert(i >= 1);
        lemma_find_node_first(rest, node, i - 1);
    }
}

pub proof fn lemma_find_node_absent(s: Seq<RegisteredItem>, node: Seq<char>)
    requires
        forall|j: int| 0 <= j < s.len() ==> (#[trigger] s[j]).node_id@ != node,
    ensures
        find_node(s, node) == -1,
    decreases s.len(),
{
    if s.len() > 0 {
        let rest = s.drop_first();
        assert(forall|j: int| 0 <= j < rest.len() ==> rest[j] == #[trigger] s[j + 1]);
        lemma_find_node_absent(rest, node);
    }
}

proof fn lemma_find_node_all(s: Seq<RegisteredItem>, node: Seq<char>)
    requires
        find_node(s, node) == -1,
    ensures
        forall|j: int| 0 <= j < s.len() ==> (#[trigger] s[j]).node_id@ != node,
    decreases s.len(),
{
    if s.len() > 0 {
        let rest = s.drop_first();
        lemma_find_node_props(rest, node);
        assert(s[0].node_id@ != node);
        assert(find_node(rest, node) == -1);
        lemma_find_node_all(rest, node);
        assert forall|j: int|
            0 <= j < s.len() implies (#[trigger] s[j]).node_id@ != node by {
            if j >= 1 {
                assert(s[j] == rest[j - 1]);
            }
        }
    }
}

pub proof fn lemma_find_handle_props(s: Seq<RegisteredItem>, handle: u32)
    ensures
        -1 <= find_handle(s, handle) < s.len(),
        find_handle(s, handle) >= 0 ==> s[find_handle(s, handle)].handle == handle,
    decreases s.len(),
{
    if s.len() > 0 && s[0].handle != handle {
        lemma_find_handle_props(s.drop_first(), handle);
    }
}

proof fn lemma_find_handle_first(s: Seq<RegisteredItem>, handle: u32, i: int)
    requires
        0 <= i < s.len(),
        s[i].handle == handle,
        forall|j: int| 0 <= j < i ==> (#[trigger] s[j]).handle != handle,
    ensures
        find_handle(s, handle) == i,
    decreases s.len(),
{
    if s[0].handle == handle {
        assert(i == 0);
    } else {
        let rest = s.drop_first();
        assert(forall|j: int| 0 <= j < rest.len() ==> rest[j] == #[trigger] s[j + 1]);
        assert(i >= 1);
        lemma_find_handle_first(rest, handle, i - 1);
    }
}

proof fn lemma_find_handle_absent(s: Seq<RegisteredItem>, handle: u32)
    requires
        find_handle(s, handle) == -1,
    ensures
        forall|j: int| 0 <= j < s.len() ==> (#[trigger] s[j]).handle != handle,
    decreases s.len(),
{
    if s.len() > 0 {
        let rest = s.drop_first();
        lemma_find_handle_props(rest, handle);
        assert(s[0].handle != handle);
        assert(find_handle(rest, handle) == -1);
        lemma_find_handle_absent(rest, handle);
        assert forall|j: int| 0 <= j < s.len() implies (#[trigger] s[j]).handle != handle by {
            if j >= 1 {
                assert(s[j] == rest[j - 1]);
            }
        }
    }
}

proof fn lemma_find_handle_absent_rev(s: Seq<RegisteredItem>, handle: u32)
    requires
        forall|j: int| 0 <= j < s.len() ==> (#[trigger] s[j]).handle != handle,
    ensures
        find_handle(s, handle) == -1,
    decreases s.len(),
{
    if s.len() > 0 {
        let rest = s.drop_first();
        assert(forall|j: int| 0 <= j < rest.len() ==> rest[j] == #[trigger] s[j + 1]);
        lemma_find_handle_absent_rev(rest, handle);
    }
}

/// In a well-formed registration state, any two distinct registered
/// items carry distinct client handles and distinct nodes.
pub proof fn lemma_registered_handles_distinct(state: SubscriptionState, i: int, j: int)
    requires
        state.wf(),
        0 <= i < state.entries@.len(),
        0 <= j < state.entries@.len(),
        i != j,
    ensures
        state.entries@[i].handle != state.entries@[j].handle,
        state.entries@[i].node_id@ != state.entries@[j].node_id@,
{
}

/// Unregistering one node never removes or corrupts another node's
/// registration: the other node stays registered with the same handle
/// and the same server item id.
pub proof fn lemma_unregister_isolated(
    pre: SubscriptionState,
    post: SubscriptionState,
    node: Seq<char>,
    r: Option<u32>,
    other: Seq<char>,
)
    requires
        pre.wf(),
        unregister_post(pre, post, node, r),
        other != node,
        find_node(pre.entries@, other) >= 0,
    ensures
        ({
            let k = find_node(pre.entries@, other);
            let k2 = find_node(post.entries@, other);
            k2 >= 0 && post.entries@[k2].handle == pre.entries@[k].handle
                && post.entries@[k2].item_id == pre.entries@[k].item_id
        }),
{
    let s = pre.entries@;
    let k = find_node(s, other);
    lemma_find_node_props(s, other);
    match r {
        None => {
        },
        Some(id) => {
            let idx = find_node(s, node);
            lemma_find_node_props(s, node);
            assert(s[idx].node_id@ == node);
            assert(s[k].node_id@ == other);
            assert(k != idx);
            let t = post.entries@;
            assert(t =~= s.subrange(0, idx) + s.subrange(idx + 1, s.len() as int));
            let k2 = if k < idx {
                k
            } else {
                k - 1
            };
            assert(t[k2] == s[k]);
            assert forall|j: int| 0 <= j < k2 implies (#[trigger] t[j]).node_id@ != other by {
                if j < idx {
                    assert(t[j] == s[j]);
                } else {
                    assert(t[j] == s[j + 1]);
                    assert(j + 1 < k);
                }
            }
            lemma_find_node_first(t, other, k2);
        },
    }
}

/// Subscription publishing configuration.
#[derive(Debug, Clone)]
pub struct SubscriptionConfig {
    /// Publishing interval in milliseconds.
    pub publishing_interval_ms: u64,
    /// Lifetime count.
    pub lifetime_count: u32,
    /// Max keep-alive count.
    pub max_keepalive_count: u32,
    /// Max notifications per publish (0 for unlimited).
    pub max_notifications: u32,
    /// Priority.
    pub priority: u8,
}

impl Default for SubscriptionConfig {
    /// One-second publishing, modest lifetime, unlimited notifications.
    fn default() -> (r: Self)
        ensures
            r.publishing_interval_ms == 1000,
            r.lifetime_count == 10,
            r.max_keepalive_count == 30,
            r.max_notifications == 0,
            r.priority == 0,
    {
        Self {
            publishing_interval_ms: 1000,
            lifetime_count: 10,
            max_keepalive_count: 30,
            max_notifications: 0,
            priority: 0,
        }
    }
}

} // verus!
