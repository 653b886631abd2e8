//! Status-code translation: OPC-UA status words to human-readable text.

use vstd::prelude::*;
use crate::text::{spec_hex8, u32_to_hex8};

verus! {

/// Severity word of a status code, taken from its two top bits.
pub open spec fn spec_severity_word(code: u32) -> Seq<char> {
    if code >> 30u32 == 0u32 {
        "Good"@
    } else if code >> 30u32 == 1u32 {
        "Uncertain"@
    } else {
        "Bad"@
    }
}

fn severity_fallback(code: u32) -> (r: String)
    ensures
        r@ == spec_severity_word(code) + " (0x"@ + spec_hex8(code as int) + ")"@,
{
    let word = match code >> 30 {
        0 => "Good",
        1 => "Uncertain",
        _ => "Bad",
    };
    let mut out = word.to_owned();
    out.append(" (0x");
    let hex = u32_to_hex8(code);
    out.append(hex.as_str());
    out.append(")");
    out
}

/// The table of known status codes, with the severity fallback for the rest.
pub open spec fn spec_translate_status(code: u32) -> Seq<char> {
    if code == 0x00000000u32 {
        "Good"@
    } else if code == 0x00000001u32 {
        "Good - Clamped"@
    } else if code == 0x00000002u32 {
        "Good - More Data"@
    } else if code == 0x00000003u32 {
        "Good - Communication Event"@
    } else if code == 0x00000004u32 {
        "Good - Shutdown Event"@
    } else if code == 0x00000005u32 {
        "Good - Call Again"@
    } else if code == 0x00000006u32 {
        "Good - No Data"@
    } else if code == 0x40000000u32 {
        "Uncertain"@
    } else if code == 0x40010000u32 {
        "Uncertain - Initial Value"@
    } else if code == 0x40020000u32 {
        "Uncertain - Sensor Calibration"@
    } else if code == 0x40030000u32 {
        "Uncertain - Engineering Units Exceeded"@
    } else if code == 0x40040000u32 {
        "Uncertain - Sub Normal"@
    } else if code == 0x40050000u32 {
        "Uncertain - Last Usable Value"@
    } else if code == 0x40A50000u32 {
        "Uncertain - Data Sub Normal"@
    } else if code == 0x80000000u32 {
        "Bad - Unexpected Error"@
    } else if code == 0x80010000u32 {
        "Bad - Internal Error"@
    } else if code == 0x80020000u32 {
        "Bad - Out Of Memory"@
    } else if code == 0x80030000u32 {
        "Bad - Resource Unavailable"@
    } else if code == 0x80040000u32 {
        "Bad - Communication Error"@
    } else if code == 0x80050000u32 {
        "Bad - Encoding Error"@
    } else if code == 0x80060000u32 {
        "Bad - Decoding Error"@
    } else if code == 0x80070000u32 {
        "Bad - Encoding Limits Exceeded"@
    } else if code == 0x80080000u32 {
        "Bad - Request Too Large"@
    } else if code == 0x80090000u32 {
        "Bad - Response Too Large"@
    } else if code == 0x800A0000u32 {
        "Bad - Unknown Response"@
    } else if code == 0x800B0000u32 {
        "Bad - Timeout"@
    } else if code == 0x800C0000u32 {
        "Bad - Service Unsupported"@
    } else if code == 0x800D0000u32 {
        "Bad - Shutdown"@
    } else if code == 0x800E0000u32 {
        "Bad - Server Not Connected"@
    } else if code == 0x800F0000u32 {
        "Bad - Server Halted"@
    } else if code == 0x80100000u32 {
        "Bad - Nothing To Do"@
    } else if code == 0x80110000u32 {
        "Bad - Too Many Operations"@
    } else if code == 0x80120000u32 {
        "Bad - Too Many Monitored Items"@
    } else if code == 0x80130000u32 {
        "Bad - Data Type ID Unknown"@
    } else if code == 0x80140000u32 {
        "Bad - Certificate Invalid"@
    } else if code == 0x80150000u32 {
        "Bad - Security Checks Failed"@
    } else if code == 0x80160000u32 {
        "Bad - Certificate Time Invalid"@
    } else if code == 0x80170000u32 {
        "Bad - Certificate Issuer Time Invalid"@
    } else if code == 0x80180000u32 {
        "Bad - Certificate Host Name Invalid"@
    } else if code == 0x80190000u32 {
        "Bad - Certificate URI Invalid"@
    } else if code == 0x801A0000u32 {
        "Bad - Certificate Use Not Allowed"@
    } else if code == 0x801B0000u32 {
        "Bad - Certificate Issuer Use Not Allowed"@
    } else if code == 0x801C0000u32 {
        "Bad - Certificate Untrusted"@
    } else if code == 0x801D0000u32 {
        "Bad - Certificate Revocation Unknown"@
    } else if code == 0x801E0000u32 {
        "Bad - Certificate Issuer Revocation Unknown"@
    } else if code == 0x801F0000u32 {
        "Bad - Certificate Revoked"@
    } else if code == 0x80200000u32 {
        "Bad - Certificate Issuer Revoked"@
    } else if code == 0x80210000u32 {
        "Bad - Certificate Chain Incomplete"@
    } else if code == 0x80220000u32 {
        "Bad - User Access Denied"@
    } else if code == 0x80230000u32 {
        "Bad - Identity Token Invalid"@
    } else if code == 0x80240000u32 {
        "Bad - Identity Token Rejected"@
    } else if code == 0x80250000u32 {
        "Bad - Secure Channel ID Invalid"@
    } else if code == 0x80260000u32 {
        "Bad - Invalid Timestamp"@
    } else if code == 0x80270000u32 {
        "Bad - Nonce Invalid"@
    } else if code == 0x80280000u32 {
        "Bad - Session ID Invalid"@
    } else if code == 0x80290000u32 {
        "Bad - Session Closed"@
    } else if code == 0x802A0000u32 {
        "Bad - Session Not Activated"@
    } else if code == 0x802B0000u32 {
        "Bad - Subscription ID Invalid"@
    } else if code == 0x80890000u32 {
        "Bad - Node ID Invalid"@
    } else if code == 0x808A0000u32 {
        "Bad - Node ID Unknown"@
    } else if code == 0x808B0000u32 {
        "Bad - Attribute ID Invalid"@
    } else if code == 0x808C0000u32 {
        "Bad - Index Range Invalid"@
    } else if code == 0x808D0000u32 {
        "Bad - Index Range No Data"@
    } else if code == 0x808E0000u32 {
        "Bad - Data Encoding Invalid"@
    } else if code == 0x808F0000u32 {
        "Bad - Data Encoding Unsupported"@
    } else if code == 0x80900000u32 {
        "Bad - Not Readable"@
    } else if code == 0x80910000u32 {
        "Bad - Not Writable"@
    } else if code == 0x80920000u32 {
        "Bad - Out Of Range"@
    } else if code == 0x80930000u32 {
        "Bad - Not Supported"@
    } else if code == 0x80940000u32 {
        "Bad - Not Found"@
    } else if code == 0x80950000u32 {
        "Bad - Object Deleted"@
    } else if code == 0x80960000u32 {
        "Bad - Not Implemented"@
    } else if code == 0x80970000u32 {
        "Bad - Monitoring Mode Invalid"@
    } else if code == 0x80980000u32 {
        "Bad - Monitored Item ID Invalid"@
    } else if code == 0x80990000u32 {
        "Bad - Monitored Item Filter Not Supported"@
    } else if code == 0x809A0000u32 {
        "Bad - Monitored Item Filter Unsupported"@
    } else if code == 0x809B0000u32 {
        "Bad - Filter Not Allowed"@
    } else if code == 0x809C0000u32 {
        "Bad - Structure Missing"@
    } else if code == 0x809D0000u32 {
        "Bad - Event Filter Invalid"@
    } else if code == 0x809E0000u32 {
        "Bad - Content Filter Invalid"@
    } else if code == 0x809F0000u32 {
        "Bad - Filter Operator Invalid"@
    } else if code == 0x80A00000u32 {
        "Bad - Filter Operator Unsupported"@
    } else if code == 0x80A10000u32 {
        "Bad - Filter Operand Count Mismatch"@
    } else if code == 0x80A20000u32 {
        "Bad - Filter Operand Invalid"@
    } else if code == 0x80A30000u32 {
        "Bad - Filter Element Invalid"@
    } else if code == 0x80A40000u32 {
        "Bad - Filter Literal Invalid"@
    } else if code == 0x80A80000u32 {
        "Bad - Continuation Point Invalid"@
    } else if code == 0x80A90000u32 {
        "Bad - No Continuation Points"@
    } else if code == 0x80AA0000u32 {
        "Bad - Reference Type ID Invalid"@
    } else if code == 0x80AB0000u32 {
        "Bad - Browse Direction Invalid"@
    } else if code == 0x80AC0000u32 {
        "Bad - Node Not In View"@
    } else if code == 0x80AD0000u32 {
        "Bad - Numeric Overflow"@
    } else if code == 0x80AE0000u32 {
        "Bad - Server URI Invalid"@
    } else if code == 0x80AF0000u32 {
        "Bad - Server Name Missing"@
    } else if code == 0x80B00000u32 {
        "Bad - Discovery URL Missing"@
    } else if code == 0x80B10000u32 {
        "Bad - Semaphore File Missing"@
    } else if code == 0x80B20000u32 {
        "Bad - Request Type Invalid"@
    } else if code == 0x80B30000u32 {
        "Bad - Security Mode Rejected"@
    } else if code == 0x80B40000u32 {
        "Bad - Security Policy Rejected"@
    } else if code == 0x80B50000u32 {
        "Bad - Too Many Sessions"@
    } else if code == 0x80B60000u32 {
        "Bad - User Signature Invalid"@
    } else if code == 0x80B70000u32 {
        "Bad - Application Signature Invalid"@
    } else if code == 0x80B80000u32 {
        "Bad - No Valid Certificates"@
    } else if code == 0x80B90000u32 {
        "Bad - Identity Change Not Supported"@
    } else if code == 0x80BD0000u32 {
        "Bad - Request Cancelled By Request"@
    } else if code == 0x80BE0000u32 {
        "Bad - Parent Node ID Invalid"@
    } else if code == 0x80BF0000u32 {
        "Bad - Reference Not Allowed"@
    } else if code == 0x80C10000u32 {
        "Bad - Node ID Rejected"@
    } else if code == 0x80C20000u32 {
        "Bad - Node ID Exists"@
    } else if code == 0x80C30000u32 {
        "Bad - Node Class Invalid"@
    } else if code == 0x80C40000u32 {
        "Bad - Browse Name Invalid"@
    } else if code == 0x80C50000u32 {
        "Bad - Browse Name Duplicated"@
    } else if code == 0x80C60000u32 {
        "Bad - Node Attributes Invalid"@
    } else if code == 0x80C70000u32 {
        "Bad - Type Definition Invalid"@
    } else if code == 0x80C80000u32 {
        "Bad - Source Node ID Invalid"@
    } else if code == 0x80C90000u32 {
        "Bad - Target Node ID Invalid"@
    } else if code == 0x80CA0000u32 {
        "Bad - Duplicate Reference Not Allowed"@
    } else if code == 0x80CB0000u32 {
        "Bad - Invalid Self Reference"@
    } else if code == 0x80CC0000u32 {
        "Bad - Reference Local Only"@
    } else if code == 0x80CD0000u32 {
        "Bad - No Delete Rights"@
    } else {
        spec_severity_word(code) + " (0x"@ + spec_hex8(code as int) + ")"@
    }
}

/// Translate a status code into readable text: the table entry for a
/// known code, else its severity word with the code in hexadecimal.
pub fn translate_status_code(code: u32) -> (r: String)
    ensures
        r@ == spec_translate_status(code),
{
    match code {
        0x00000000 => "Good".to_owned(),
        0x00000001 => "Good - Clamped".to_owned(),
        0x00000002 => "Good - More Data".to_owned(),
        0x00000003 => "Good - Communication Event".to_owned(),
        0x00000004 => "Good - Shutdown Event".to_owned(),
        0x00000005 => "Good - Call Again".to_owned(),
        0x00000006 => "Good - No Data".to_owned(),
        0x40000000 => "Uncertain".to_owned(),
        0x40010000 => "Uncertain - Initial Value".to_owned(),
        0x40020000 => "Uncertain - Sensor Calibration".to_owned(),
        0x40030000 => "Uncertain - Engineering Units Exceeded".to_owned(),
        0x40040000 => "Uncertain - Sub Normal".to_owned(),
        0x40050000 => "Uncertain - Last Usable Value".to_owned(),
        0x40A50000 => "Uncertain - Data Sub Normal".to_owned(),
        0x80000000 => "Bad - Unexpected Error".to_owned(),
        0x80010000 => "Bad - Internal Error".to_owned(),
        0x80020000 => "Bad - Out Of Memory".to_owned(),
        0x80030000 => "Bad - Resource Unavailable".to_owned(),
        0x80040000 => "Bad - Communication Error".to_owned(),
        0x80050000 => "Bad - Encoding Error".to_owned(),
        0x80060000 => "Bad - Decoding Error".to_owned(),
        0x80070000 => "Bad - Encoding Limits Exceeded".to_owned(),
        0x80080000 => "Bad - Request Too Large".to_owned(),
        0x80090000 => "Bad - Response Too Large".to_owned(),
        0x800A0000 => "Bad - Unknown Response".to_owned(),
        0x800B0000 => "Bad - Timeout".to_owned(),
        0x800C0000 => "Bad - Service Unsupported".to_owned(),
        0x800D0000 => "Bad - Shutdown".to_owned(),
        0x800E0000 => "Bad - Server Not Connected".to_owned(),
        0x800F0000 => "Bad - Server Halted".to_owned(),
        0x80100000 => "Bad - Nothing To Do".to_owned(),
        0x80110000 => "Bad - Too Many Operations".to_owned(),
        0x80120000 => "Bad - Too Many Monitored Items".to_owned(),
        0x80130000 => "Bad - Data Type ID Unknown".to_owned(),
        0x80140000 => "Bad - Certificate Invalid".to_owned(),
        0x80150000 => "Bad - Security Checks Failed".to_owned(),
        0x80160000 => "Bad - Certificate Time Invalid".to_owned(),
        0x80170000 => "Bad - Certificate Issuer Time Invalid".to_owned(),
        0x80180000 => "Bad - Certificate Host Name Invalid".to_owned(),
        0x80190000 => "Bad - Certificate URI Invalid".to_owned(),
        0x801A0000 => "Bad - Certificate Use Not Allowed".to_owned(),
        0x801B0000 => "Bad - Certificate Issuer Use Not Allowed".to_owned(),
        0x801C0000 => "Bad - Certificate Untrusted".to_owned(),
        0x801D0000 => "Bad - Certificate Revocation Unknown".to_owned(),
        0x801E0000 => "Bad - Certificate Issuer Revocation Unknown".to_owned(),
        0x801F0000 => "Bad - Certificate Revoked".to_owned(),
        0x80200000 => "Bad - Certificate Issuer Revoked".to_owned(),
        0x80210000 => "Bad - Certificate Chain Incomplete".to_owned(),
        0x80220000 => "Bad - User Access Denied".to_owned(),
        0x80230000 => "Bad - Identity Token Invalid".to_owned(),
        0x80240000 => "Bad - Identity Token Rejected".to_owned(),
        0x80250000 => "Bad - Secure Channel ID Invalid".to_owned(),
        0x80260000 => "Bad - Invalid Timestamp".to_owned(),
        0x80270000 => "Bad - Nonce Invalid".to_owned(),
        0x80280000 => "Bad - Session ID Invalid".to_owned(),
        0x80290000 => "Bad - Session Closed".to_owned(),
        0x802A0000 => "Bad - Session Not Activated".to_owned(),
        0x802B0000 => "Bad - Subscription ID Invalid".to_owned(),
        0x80890000 => "Bad - Node ID Invalid".to_owned(),
        0x808A0000 => "Bad - Node ID Unknown".to_owned(),
        0x808B0000 => "Bad - Attribute ID Invalid".to_owned(),
        0x808C0000 => "Bad - Index Range Invalid".to_owned(),
        0x808D0000 => "Bad - Index Range No Data".to_owned(),
        0x808E0000 => "Bad - Data Encoding Invalid".to_owned(),
        0x808F0000 => "Bad - Data Encoding Unsupported".to_owned(),
        0x80900000 => "Bad - Not Readable".to_owned(),
        0x80910000 => "Bad - Not Writable".to_owned(),
        0x80920000 => "Bad - Out Of Range".to_owned(),
        0x80930000 => "Bad - Not Supported".to_owned(),
        0x80940000 => "Bad - Not Found".to_owned(),
        0x80950000 => "Bad - Object Deleted".to_owned(),
        0x80960000 => "Bad - Not Implemented".to_owned(),
        0x80970000 => "Bad - Monitoring Mode Invalid".to_owned(),
        0x80980000 => "Bad - Monitored Item ID Invalid".to_owned(),
        0x80990000 => "Bad - Monitored Item Filter Not Supported".to_owned(),
        0x809A0000 => "Bad - Monitored Item Filter Unsupported".to_owned(),
        0x809B0000 => "Bad - Filter Not Allowed".to_owned(),
        0x809C0000 => "Bad - Structure Missing".to_owned(),
        0x809D0000 => "Bad - Event Filter Invalid".to_owned(),
        0x809E0000 => "Bad - Content Filter Invalid".to_owned(),
        0x809F0000 => "Bad - Filter Operator Invalid".to_owned(),
        0x80A00000 => "Bad - Filter Operator Unsupported".to_owned(),
        0x80A10000 => "Bad - Filter Operand Count Mismatch".to_owned(),
        0x80A20000 => "Bad - Filter Operand Invalid".to_owned(),
        0x80A30000 => "Bad - Filter Element Invalid".to_owned(),
        0x80A40000 => "Bad - Filter Literal Invalid".to_owned(),
        0x80A80000 => "Bad - Continuation Point Invalid".to_owned(),
        0x80A90000 => "Bad - No Continuation Points".to_owned(),
        0x80AA0000 => "Bad - Reference Type ID Invalid".to_owned(),
        0x80AB0000 => "Bad - Browse Direction Invalid".to_owned(),
        0x80AC0000 => "Bad - Node Not In View".to_owned(),
        0x80AD0000 => "Bad - Numeric Overflow".to_owned(),
        0x80AE0000 => "Bad - Server URI Invalid".to_owned(),
        0x80AF0000 => "Bad - Server Name Missing".to_owned(),
        0x80B00000 => "Bad - Discovery URL Missing".to_owned(),
        0x80B10000 => "Bad - Semaphore File Missing".to_owned(),
        0x80B20000 => "Bad - Request Type Invalid".to_owned(),
        0x80B30000 => "Bad - Security Mode Rejected".to_owned(),
        0x80B40000 => "Bad - Security Policy Rejected".to_owned(),
        0x80B50000 => "Bad - Too Many Sessions".to_owned(),
        0x80B60000 => "Bad - User Signature Invalid".to_owned(),
        0x80B70000 => "Bad - Application Signature Invalid".to_owned(),
        0x80B80000 => "Bad - No Valid Certificates".to_owned(),
        0x80B90000 => "Bad - Identity Change Not Supported".to_owned(),
        0x80BD0000 => "Bad - Request Cancelled By Request".to_owned(),
        0x80BE0000 => "Bad - Parent Node ID Invalid".to_owned(),
        0x80BF0000 => "Bad - Reference Not Allowed".to_owned(),
        0x80C10000 => "Bad - Node ID Rejected".to_owned(),
        0x80C20000 => "Bad - Node ID Exists".to_owned(),
        0x80C30000 => "Bad - Node Class Invalid".to_owned(),
        0x80C40000 => "Bad - Browse Name Invalid".to_owned(),
        0x80C50000 => "Bad - Browse Name Duplicated".to_owned(),
        0x80C60000 => "Bad - Node Attributes Invalid".to_owned(),
        0x80C70000 => "Bad - Type Definition Invalid".to_owned(),
        0x80C80000 => "Bad - Source Node ID Invalid".to_owned(),
        0x80C90000 => "Bad - Target Node ID Invalid".to_owned(),
        0x80CA0000 => "Bad - Duplicate Reference Not Allowed".to_owned(),
        0x80CB0000 => "Bad - Invalid Self Reference".to_owned(),
        0x80CC0000 => "Bad - Reference Local Only".to_owned(),
        0x80CD0000 => "Bad - No Delete Rights".to_owned(),
        _ => severity_fallback(code),
    }
}

/// RGB colour used to paint a status code: green for good, yellow for
/// uncertain, red otherwise.
pub open spec fn spec_status_color(code: u32) -> [u8; 3] {
    if code >> 30u32 == 0u32 {
        [0u8, 200u8, 0u8]
    } else if code >> 30u32 == 1u32 {
        [255u8, 200u8, 0u8]
    } else {
        [255u8, 50u8, 50u8]
    }
}

/// Colour for a status code, by its severity bits.
pub fn status_code_color(code: u32) -> (r: [u8; 3])
    ensures
        r == spec_status_color(code),
{
    match code >> 30 {
        0 => [0, 200, 0],
        1 => [255, 200, 0],
        _ => [255, 50, 50],
    }
}

} // verus!
