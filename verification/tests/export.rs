//! CSV export rendering.

use denginks_opcua_diagnostic::browser::{BrowsedNode, NodeClass};
use denginks_opcua_diagnostic::export::ExportEngine;
use denginks_opcua_diagnostic::subscription::{DataChangeValue, MonitoredData, VariantValue};

#[test]
fn test_crawl_csv_rows_and_escaping() {
    let nodes = vec![
        BrowsedNode {
            node_id: "ns=2;s=Plain".to_string(),
            browse_name: "2:Plain".to_string(),
            display_name: "Plain".to_string(),
            node_class: NodeClass::Variable,
            type_definition: None,
            has_children: false,
        },
        BrowsedNode {
            node_id: "ns=2;s=Tricky".to_string(),
            browse_name: "2:Tricky".to_string(),
            display_name: "a,b \"quoted\"".to_string(),
            node_class: NodeClass::Object,
            type_definition: None,
            has_children: true,
        },
    ];
    let text = ExportEngine::export_crawl_result_to_csv(&nodes);
    let lines: Vec<&str> = text.lines().collect();
    assert_eq!(lines.len(), 2);
    assert_eq!(lines[0], "ns=2;s=Plain,2:Plain,Plain,Variable");
    // The field with a comma and quotes is escaped, not passed through.
    assert_eq!(lines[1], "ns=2;s=Tricky,2:Tricky,\"a,b \"\"quoted\"\"\",Object");
}

#[test]
fn test_watchlist_csv_row() {
    let mut item = MonitoredData::new("ns=2;s=V".to_string(), "Speed".to_string());
    item.apply_update(
        DataChangeValue {
            value: Some(VariantValue::UInt32(1500)),
            status: Some(0),
            source_timestamp_ms: Some(1234),
            server_timestamp_ms: None,
        },
        0,
    );
    let text = ExportEngine::export_watchlist_to_csv(&vec![item]);
    assert_eq!(text.trim_end(), "Speed,ns=2;s=V,1500,Good,1234");
}
