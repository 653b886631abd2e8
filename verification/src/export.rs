//! Export of watchlist items and crawl results as CSV text.
//!
//! The CSV encoding itself — quoting and escaping — is done by the csv
//! crate behind one trusted call; which fields make up each row, and in
//! what order, is decided and verified here.  Writing the text to a file
//! happens outside the library.

use vstd::prelude::*;
use crate::browser::{spec_node_class_name, BrowsedNode};
use crate::status_codes::{spec_translate_status, translate_status_code};
use crate::subscription::{spec_format_variant, spec_signed_dec, i64_to_dec, MonitoredData};

verus! {

/// The CSV line the csv crate encodes for one record of fields,
/// terminator included.  It depends on the fields alone.
pub uninterp spec fn csv_row_of(fields: Seq<Seq<char>>) -> Seq<char>;

/// Relies on csv::Writer: writes one record to an in-memory buffer,
/// quoting and escaping fields as CSV demands; the produced text is a
/// function of the fields alone.
#[verifier::external_body]
fn csv_row(fields: &Vec<String>) -> (r: String)
    ensures
        r@ == csv_row_of(fields.deep_view()),
{
    let mut wtr = csv::WriterBuilder::new()
        .has_headers(false)
        .from_writer(Vec::new());
    let _ = wtr.write_record(fields.iter().map(|s| s.as_str()));
    let bytes = wtr.into_inner().unwrap_or_default();
    String::from_utf8(bytes).unwrap_or_default()
}

/// The fields of one watchlist row: display name, node id, formatted
/// value, translated status, source timestamp in milliseconds.
pub open spec fn spec_watchlist_fields(item: MonitoredData) -> Seq<Seq<char>> {
    seq![
        item.display_name@,
        item.node_id@,
        (match item.value {
            Some(v) => spec_format_variant(v),
            None => "---"@,
        }),
        spec_translate_status(item.status),
        (match item.source_timestamp_ms {
            Some(ts) => spec_signed_dec(ts as int),
            None => "---"@,
        }),
    ]
}

/// The CSV text for the first `i` watchlist items.
pub open spec fn spec_watchlist_csv(items: Seq<MonitoredData>, i: int) -> Seq<char>
    decreases i,
{
    if i <= 0 {
        Seq::empty()
    } else {
        spec_watchlist_csv(items, i - 1) + csv_row_of(spec_watchlist_fields(items[i - 1]))
    }
}

/// The fields of one crawl-result row: node id, browse name, display
/// name, node class.
pub open spec fn spec_crawl_fields(node: BrowsedNode) -> Seq<Seq<char>> {
    seq![
        node.node_id@,
        node.browse_name@,
        node.display_name@,
        spec_node_class_name(node.node_class),
    ]
}

/// The CSV text for the first `i` crawl results.
pub open spec fn spec_crawl_csv(nodes: Seq<BrowsedNode>, i: int) -> Seq<char>
    decreases i,
{
    if i <= 0 {
        Seq::empty()
    } else {
        spec_crawl_csv(nodes, i - 1) + csv_row_of(spec_crawl_fields(nodes[i - 1]))
    }
}

/// Renders export text; writing it out is the caller's business.
pub struct ExportEngine;

impl ExportEngine {
    /// CSV text for the watchlist: one row per item, with the item's
    /// display name, node id, value, status text and source timestamp.
    pub fn export_watchlist_to_csv(items: &Vec<MonitoredData>) -> (r: String)
        ensures
            r@ == spec_watchlist_csv(items@, items@.len() as int),
    {
        let n = items.len();
        let mut out = String::new();
        let mut i: usize = 0;
        while i < n
            invariant
                0 <= i <= n,
                n == items@.len(),
                out@ == spec_watchlist_csv(items@, i as int),
            decreases n - i,
        {
            let item = &items[i];
            let mut fields: Vec<String> = Vec::new();
            fields.push(item.display_name.clone());
            fields.push(item.node_id.clone());
            fields.push(item.value_string());
            fields.push(translate_status_code(item.status));
            fields.push(
                match item.source_timestamp_ms {
                    Some(ts) => i64_to_dec(ts),
                    None => "---".to_owned(),
                },
            );
            proof {
                assert(fields.deep_view() =~= spec_watchlist_fields(items@[i as int]));
            }
            let row = csv_row(&fields);
            out.append(row.as_str());
            i += 1;
        }
        out
    }

    /// CSV text for crawl results: one row per node, with its id, browse
    /// name, display name and class.
    pub fn export_crawl_result_to_csv(nodes: &Vec<BrowsedNode>) -> (r: String)
        ensures
            r@ == spec_crawl_csv(nodes@, nodes@.len() as int),
    {
        let n = nodes.len();
        let mut out = String::new();
        let mut i: usize = 0;
        while i < n
            invariant
                0 <= i <= n,
                n == nodes@.len(),
                out@ == spec_crawl_csv(nodes@, i as int),
            decreases n - i,
        {
            let node = &nodes[i];
            let mut fields: Vec<String> = Vec::new();
            fields.push(node.node_id.clone());
            fields.push(node.browse_name.clone());
            fields.push(node.display_name.clone());
            fields.push(node.node_class.name().to_owned());
            proof {
                assert(fields.deep_view() =~= spec_crawl_fields(nodes@[i as int]));
            }
            let row = csv_row(&fields);
            out.append(row.as_str());
            i += 1;
        }
        out
    }
}

} // verus!
