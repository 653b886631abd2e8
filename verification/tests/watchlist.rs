//! Subscription bookkeeping: registration state, the manager's
//! decisions, and the data-change dispatcher.

use denginks_opcua_diagnostic::browser::{BrowsedNode, NodeClass};
use denginks_opcua_diagnostic::subscription::{
    format_variant, DataChangeValue, MonitoredData, NumericSample, SubscriptionState,
    VariantValue, MAX_HISTORY_POINTS,
};
use denginks_opcua_diagnostic::subscription_manager::{
    confirm_monitored_items, SubscriptionAction, SubscriptionManager,
};
use denginks_opcua_diagnostic::text::truncate_error;

fn browsed(node_id: &str, display: &str) -> BrowsedNode {
    BrowsedNode {
        node_id: node_id.to_string(),
        browse_name: display.to_string(),
        display_name: display.to_string(),
        node_class: NodeClass::Variable,
        type_definition: None,
        has_children: false,
    }
}

#[test]
fn test_subscription_state() {
    let mut state = SubscriptionState::default();
    let node_id = "ns=2;s=Var1".to_string();

    // Register with server_id=100, handle=1
    state.register_item(node_id.clone(), 100, 1);

    // Lookup by handle
    assert_eq!(state.get_node_id(1), Some(&node_id));

    // Remove by node_id; the server item id comes back, for the
    // best-effort remote removal.
    let removed = state.unregister_by_node(&node_id);
    assert_eq!(removed, Some(100));
    assert!(state.get_node_id(1).is_none());
}

#[test]
fn test_monitored_data_creation() {
    let node_id = "ns=2;s=TestVar".to_string();
    let data = MonitoredData::new(node_id.clone(), "Test Variable".to_string());

    assert_eq!(data.node_id, node_id);
    assert_eq!(data.display_name, "Test Variable");
    assert!(data.value.is_none());
    assert_ne!(data.status >> 30, 0);
}

#[test]
fn test_create_subscription_requested_once() {
    let mut manager = SubscriptionManager::new();

    let a1 = manager.request_add_to_watchlist(&browsed("ns=2;s=A", "A"));
    let a2 = manager.request_add_to_watchlist(&browsed("ns=2;s=B", "B"));
    let a3 = manager.request_add_to_watchlist(&browsed("ns=2;s=C", "C"));

    assert!(matches!(a1, SubscriptionAction::CreateSubscription));
    assert!(matches!(a2, SubscriptionAction::NoAction));
    assert!(matches!(a3, SubscriptionAction::NoAction));
    assert_eq!(manager.pending_monitored_items.len(), 3);

    // The created event flushes the queue exactly once.
    let flush = manager.handle_subscription_created(7);
    match flush {
        SubscriptionAction::AddItems(nodes) => assert_eq!(nodes.len(), 3),
        _ => panic!("expected the queued nodes to be flushed"),
    }
    assert!(manager.pending_monitored_items.is_empty());
    assert_eq!(manager.subscription_state.subscription_id, Some(7));

    // With the subscription active, a new node is added directly.
    let a4 = manager.request_add_to_watchlist(&browsed("ns=2;s=D", "D"));
    match a4 {
        SubscriptionAction::AddItems(nodes) => assert_eq!(nodes, vec!["ns=2;s=D".to_string()]),
        _ => panic!("expected a direct add"),
    }

    // A node already tracked is a no-op.
    let a5 = manager.request_add_to_watchlist(&browsed("ns=2;s=A", "A"));
    assert!(matches!(a5, SubscriptionAction::NoAction));
}

#[test]
fn test_handles_distinct_and_removal_isolated() {
    let mut manager = SubscriptionManager::new();
    manager.request_add_to_watchlist(&browsed("ns=2;s=X", "X"));
    manager.request_add_to_watchlist(&browsed("ns=2;s=Y", "Y"));
    manager.handle_subscription_created(1);

    let hx = manager.allocate_handle();
    let hy = manager.allocate_handle();
    assert_ne!(hx, hy);

    let pairs = vec![
        ("ns=2;s=X".to_string(), 501, hx),
        ("ns=2;s=Y".to_string(), 502, hy),
    ];
    manager.handle_monitored_items_added(pairs);
    assert_eq!(manager.subscription_state.get_node_id(hx).unwrap(), "ns=2;s=X");
    assert_eq!(manager.subscription_state.get_node_id(hy).unwrap(), "ns=2;s=Y");

    // Removing one registration leaves the other untouched.
    let removed = manager.remove_from_watchlist("ns=2;s=X");
    assert_eq!(removed, Some(501));
    assert!(manager.subscription_state.get_node_id(hx).is_none());
    assert_eq!(manager.subscription_state.get_node_id(hy).unwrap(), "ns=2;s=Y");
    assert_eq!(manager.monitored_items.len(), 1);
}

#[test]
fn test_data_change_routing_and_stale_handle() {
    let mut manager = SubscriptionManager::new();
    manager.request_add_to_watchlist(&browsed("ns=2;s=V", "V"));
    manager.handle_subscription_created(3);
    let h = manager.allocate_handle();
    manager.handle_monitored_items_added(vec![("ns=2;s=V".to_string(), 900, h)]);

    let change = DataChangeValue {
        value: Some(VariantValue::Int32(42)),
        status: None,
        source_timestamp_ms: Some(1_000),
        server_timestamp_ms: None,
    };
    manager.handle_data_change(h, change);
    let item = &manager.monitored_items[0];
    assert!(matches!(item.value, Some(VariantValue::Int32(42))));
    assert_eq!(item.status, 0);
    assert_eq!(item.history.len(), 1);
    assert_eq!(item.history[0], (1_000, NumericSample::Signed(42)));

    // A stale handle is dropped without any effect.
    let stale = DataChangeValue {
        value: Some(VariantValue::Int32(7)),
        status: None,
        source_timestamp_ms: None,
        server_timestamp_ms: None,
    };
    manager.handle_data_change(h + 1000, stale);
    assert!(matches!(manager.monitored_items[0].value, Some(VariantValue::Int32(42))));
}

#[test]
fn test_history_ring_is_bounded() {
    let mut item = MonitoredData::new("ns=2;s=R".to_string(), "R".to_string());
    for i in 0..(MAX_HISTORY_POINTS as i64 + 5) {
        let change = DataChangeValue {
            value: Some(VariantValue::Int64(i)),
            status: Some(0),
            source_timestamp_ms: Some(i),
            server_timestamp_ms: None,
        };
        item.apply_update(change, 0);
    }
    assert_eq!(item.history.len(), MAX_HISTORY_POINTS);
    // The oldest five samples were evicted from the front.
    assert_eq!(item.history[0], (5, NumericSample::Signed(5)));
}

#[test]
fn test_non_numeric_values_are_not_trended() {
    let mut item = MonitoredData::new("ns=2;s=T".to_string(), "T".to_string());
    let change = DataChangeValue {
        value: Some(VariantValue::Text("hello".to_string())),
        status: Some(0),
        source_timestamp_ms: Some(1),
        server_timestamp_ms: None,
    };
    item.apply_update(change, 0);
    assert!(!item.is_trendable());
    assert_eq!(item.history.len(), 0);
    assert_eq!(item.value_string(), "hello");
}

#[test]
fn test_partial_success_filter() {
    let nodes = vec!["a".to_string(), "b".to_string(), "c".to_string()];
    let handles = vec![1, 2, 3];
    // The middle entry came back with a bad status and is omitted.
    let responses = vec![(0u32, 10u32), (0x80940000, 11), (0, 12)];
    let confirmed = confirm_monitored_items(nodes, handles, responses);
    assert_eq!(
        confirmed,
        vec![("a".to_string(), 10, 1), ("c".to_string(), 12, 3)]
    );
}

#[test]
fn test_toggle_trending_and_color() {
    let mut manager = SubscriptionManager::new();
    manager.request_add_to_watchlist(&browsed("ns=2;s=T1", "T1"));
    manager.request_add_to_watchlist(&browsed("ns=2;s=T2", "T2"));

    assert!(manager.toggle_trending("ns=2;s=T1"));
    assert!(manager.monitored_items[0].show_in_trend);
    assert!(!manager.monitored_items[1].show_in_trend);
    assert!(!manager.toggle_trending("ns=2;s=T1"));
    assert!(!manager.toggle_trending("ns=2;s=unknown"));

    manager.change_trend_color("ns=2;s=T2", [1, 2, 3]);
    assert_eq!(manager.monitored_items[1].trend_color, Some([1, 2, 3]));
    assert_eq!(manager.monitored_items[0].trend_color, None);
}

#[test]
fn test_truncate_error() {
    assert_eq!(truncate_error("short", 50), "short");
    assert_eq!(truncate_error("a longer message", 8), "a longer...");
}

#[test]
fn test_number_formatting_extremes() {
    assert_eq!(format_variant(&VariantValue::Int64(i64::MIN)), "-9223372036854775808");
    assert_eq!(format_variant(&VariantValue::Int64(-42)), "-42");
    assert_eq!(format_variant(&VariantValue::UInt64(u64::MAX)), "18446744073709551615");
    assert_eq!(format_variant(&VariantValue::Byte(0)), "0");
    assert_eq!(format_variant(&VariantValue::Bool(true)), "true");
    assert_eq!(format_variant(&VariantValue::Empty), "Empty");
}
