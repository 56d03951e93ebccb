//! The human-readable status lines the core owes its caller: one line per
//! finished or failed conversion, and one when a watermark is picked.
use vstd::prelude::*;

use crate::ConvertError;

verus! {

/// The line reported after one successful conversion.
pub open spec fn done_line(path: Seq<char>) -> Seq<char> {
    "done: \""@ + path + "\""@
}

/// The line reported when a watermark path is picked.
pub open spec fn watermark_line(path: Seq<char>) -> Seq<char> {
    "watermark: \""@ + path + "\""@
}

/// The wording naming each error.
pub open spec fn error_label(e: ConvertError) -> Seq<char> {
    match e {
        ConvertError::DecodeError => "decode error"@,
        ConvertError::IoError => "io error"@,
    }
}

/// The line reported after one failed conversion, naming the file and the
/// reason.
pub open spec fn failed_line(path: Seq<char>, e: ConvertError) -> Seq<char> {
    "failed: \""@ + path + "\" ("@ + error_label(e) + ")"@
}

/// Status line for one finished conversion.
pub fn done_message(path: &str) -> (r: String)
    ensures
        r@ == done_line(path@),
{
    let mut out = String::from_str("done: \"");
    out.append(path);
    out.append("\"");
    out
}

/// Status line for a freshly picked watermark path.
pub fn watermark_message(path: &str) -> (r: String)
    ensures
        r@ == watermark_line(path@),
{
    let mut out = String::from_str("watermark: \"");
    out.append(path);
    out.append("\"");
    out
}

/// Status line for one failed conversion, naming the file and the reason.
pub fn failed_message(path: &str, e: ConvertError) -> (r: String)
    ensures
        r@ == failed_line(path@, e),
{
    let mut out = String::from_str("failed: \"");
    out.append(path);
    out.append("\" (");
    match e {
        ConvertError::DecodeError => out.append("decode error"),
        ConvertError::IoError => out.append("io error"),
    }
    out.append(")");
    out
}

} // verus!
