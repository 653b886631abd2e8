//! The crawler on a cyclic graph, node classes, panels, settings and
//! bookmarks.

use denginks_opcua_diagnostic::app::{AppModel, BackendMessage, FollowUp};
use denginks_opcua_diagnostic::bookmarks::{
    AuthMethod, Bookmarks, MessageSecurityMode, SecurityPolicy, ServerBookmark,
};
use denginks_opcua_diagnostic::browser::{BrowsedNode, NodeClass};
use denginks_opcua_diagnostic::crawler::{CrawlConfig, Crawler};
use denginks_opcua_diagnostic::diagnostics::{DiagnosticStep, StepId, StepStatus};
use denginks_opcua_diagnostic::error_panel::{ErrorPanel, ErrorSeverity, MAX_NOTIFICATIONS};
use denginks_opcua_diagnostic::i18n::Language;
use denginks_opcua_diagnostic::panels::ConnectionPanel;
use denginks_opcua_diagnostic::settings::Settings;

fn node(id: &str, class: NodeClass, has_children: bool) -> BrowsedNode {
    BrowsedNode {
        node_id: id.to_string(),
        browse_name: id.to_string(),
        display_name: id.to_string(),
        node_class: class,
        type_definition: None,
        has_children,
    }
}

#[test]
fn test_default_settings() {
    let s = Settings::default();
    assert_eq!(s.subscription_interval_ms, 1000);
    assert_eq!(s.auto_save_bookmarks, true);
}

#[test]
fn test_node_class_icons() {
    assert_eq!(NodeClass::Object.icon(), "📁");
    assert_eq!(NodeClass::Variable.icon(), "📊");
    assert_eq!(NodeClass::Method.icon(), "⚡");
}

#[test]
fn test_node_class_from_wire_value() {
    assert_eq!(NodeClass::from_opcua(1), NodeClass::Object);
    assert_eq!(NodeClass::from_opcua(2), NodeClass::Variable);
    assert_eq!(NodeClass::from_opcua(99), NodeClass::Unknown);
}

#[test]
fn test_crawl_terminates_on_cycle() {
    // a -> {b (container), c}; b -> {a (cycle), d}
    let config = CrawlConfig { max_depth: 5, max_nodes: 100, start_node: "a".to_string() };
    let mut crawler = Crawler::new(config);

    assert_eq!(crawler.next_request(), Some("a".to_string()));
    crawler.on_browse_success(vec![node("b", NodeClass::Object, true), node("c", NodeClass::Variable, false)]);

    assert_eq!(crawler.next_request(), Some("b".to_string()));
    crawler.on_browse_success(vec![node("a", NodeClass::Object, true), node("d", NodeClass::Variable, false)]);

    // The cycle back to "a" is skipped: the crawl is over.
    assert_eq!(crawler.next_request(), None);
    assert!(crawler.is_done());
    let results = crawler.into_results();
    let ids: Vec<&str> = results.iter().map(|n| n.node_id.as_str()).collect();
    assert_eq!(ids, vec!["b", "c", "a", "d"]);
}

#[test]
fn test_crawl_depth_bound() {
    // A deep chain: root -> n1 -> n2 -> ..., cut off at max_depth 2.
    let config = CrawlConfig { max_depth: 2, max_nodes: 100, start_node: "root".to_string() };
    let mut crawler = Crawler::new(config);
    assert_eq!(crawler.next_request(), Some("root".to_string()));
    crawler.on_browse_success(vec![node("n1", NodeClass::Object, true)]);
    assert_eq!(crawler.next_request(), Some("n1".to_string()));
    crawler.on_browse_success(vec![node("n2", NodeClass::Object, true)]);
    // n2 sits at the depth bound: it was collected but is not browsed.
    assert_eq!(crawler.next_request(), None);
    assert_eq!(crawler.into_results().len(), 2);
}

#[test]
fn test_crawl_node_cap() {
    let config = CrawlConfig { max_depth: 5, max_nodes: 2, start_node: "root".to_string() };
    let mut crawler = Crawler::new(config);
    crawler.next_request();
    crawler.on_browse_success(vec![
        node("x", NodeClass::Variable, false),
        node("y", NodeClass::Variable, false),
        node("z", NodeClass::Variable, false),
    ]);
    assert_eq!(crawler.next_request(), None);
    assert_eq!(crawler.into_results().len(), 2);
}

#[test]
fn test_crawl_failure_is_a_skip() {
    let config = CrawlConfig { max_depth: 3, max_nodes: 10, start_node: "a".to_string() };
    let mut crawler = Crawler::new(config);
    crawler.next_request();
    crawler.on_browse_success(vec![node("b", NodeClass::Object, true), node("c", NodeClass::Object, true)]);
    crawler.next_request();
    crawler.on_browse_failure();
    // The other child is still browsed.
    assert!(crawler.next_request().is_some());
    crawler.on_browse_success(vec![]);
    assert_eq!(crawler.next_request(), None);
    assert_eq!(crawler.into_results().len(), 2);
}

#[test]
fn test_error_panel_is_bounded() {
    let mut panel = ErrorPanel::new();
    for i in 0..12 {
        panel.add_error(format!("problem {}", i), ErrorSeverity::Error);
    }
    assert_eq!(panel.notifications.len(), MAX_NOTIFICATIONS);
    assert_eq!(panel.notifications[0].message, "problem 11");
}

#[test]
fn test_diagnostic_log_replaces_by_step_id() {
    let mut panel = ConnectionPanel::default();
    let running = DiagnosticStep::new(StepId::ScanPorts, "scan".to_string())
        .running("probing".to_string());
    panel.add_diagnostic_step(running);
    let done = DiagnosticStep::new(StepId::ScanPorts, "scan".to_string())
        .success("open".to_string(), 12);
    panel.add_diagnostic_step(done);
    assert_eq!(panel.diagnostic_log.len(), 1);
    assert_eq!(panel.diagnostic_log[0].status, StepStatus::Success);

    let other = DiagnosticStep::new(StepId::ResolveDns, "dns".to_string());
    panel.add_diagnostic_step(other);
    assert_eq!(panel.diagnostic_log.len(), 2);
}

#[test]
fn test_bookmarks_add_remove() {
    let mut bookmarks = Bookmarks::default();
    assert!(bookmarks.is_empty());
    bookmarks.add(ServerBookmark {
        name: "plant".to_string(),
        endpoint_url: "opc.tcp://plant:4840".to_string(),
        security_policy: SecurityPolicy::NoSecurity,
        security_mode: MessageSecurityMode::NoSecurity,
        auth_method: AuthMethod::Anonymous,
    });
    assert!(!bookmarks.is_empty());
    bookmarks.remove(5);
    assert_eq!(bookmarks.servers.len(), 1);
    bookmarks.remove(0);
    assert!(bookmarks.is_empty());
}

#[test]
fn test_session_closed_tears_down() {
    let mut model = AppModel::new(Language::English);
    let follow = model.process_backend_message(BackendMessage::SessionEstablished {
        endpoint: "opc.tcp://plant:4840".to_string(),
    });
    assert!(matches!(follow, Some(FollowUp::BrowseRoot)));
    assert!(!model.show_connection_panel);

    model.process_backend_message(BackendMessage::BrowseResult(
        "i=84".to_string(),
        Ok(vec![node("ns=0;i=85", NodeClass::Object, true)]),
    ));
    assert_eq!(model.root_nodes.len(), 1);

    model.process_backend_message(BackendMessage::SessionClosed);
    assert!(model.show_connection_panel);
    assert_eq!(model.root_nodes.len(), 0);
    assert_eq!(model.subscription_manager.monitored_items.len(), 0);
    assert_eq!(model.error_panel.notifications.len(), 1);
}
