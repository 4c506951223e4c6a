//! Content classification: decide from a response's declared media type
//! whether the body is a directly usable binary document or markup that
//! must be scraped for a viewer link.

use vstd::prelude::*;
use crate::scan::str_eq;

verus! {

/// The two-way classification of a fetched response.
#[derive(Debug, Clone, Copy, PartialEq, Eq, Structural)]
pub enum Classification {
    /// The body is the binary document itself.
    ReadyBinary,
    /// The body is markup that may embed a link to the document.
    Markup,
}

/// A declared content type names a ready binary: exactly the binary-document
/// type or the generic octet-stream type, compared case-sensitively.
pub open spec fn spec_is_ready_binary(ct: Seq<char>) -> bool {
    ct == "application/pdf"@ || ct == "application/octet-stream"@
}

/// Classify a response by its declared content-type header value.
/// Every value other than the two recognized binary types, the empty
/// string included, classifies as markup; no byte sniffing is performed.
pub fn classify_content_type(content_type: &str) -> (r: Classification)
    ensures
        r is ReadyBinary <==> spec_is_ready_binary(content_type@),
{
    if str_eq(content_type, "application/pdf")
        || str_eq(content_type, "application/octet-stream") {
        Classification::ReadyBinary
    } else {
        Classification::Markup
    }
}

} // verus!
