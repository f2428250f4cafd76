//! Names of the region-capture overlays and of the captured image files.

use vstd::prelude::*;
use vstd::string::StringExecFns;
use crate::text::{concat3, decimal, owned, push_decimal};

verus! {

broadcast use vstd::string::group_string_axioms;

/// Window label of the overlay of display `index`.
pub fn overlay_label(index: usize) -> (r: String)
    ensures
        r@ == "snip-overlay-"@ + decimal(index as nat),
{
    let mut r = owned("snip-overlay-");
    push_decimal(&mut r, index);
    r
}

/// Page URL of the overlay of display `index`.
pub fn overlay_url(index: usize) -> (r: String)
    ensures
        r@ == "/overlay?i="@ + decimal(index as nat),
{
    let mut r = owned("/overlay?i=");
    push_decimal(&mut r, index);
    r
}

/// Name shown for display `index` (numbered from 1).
pub fn display_name(index: usize) -> (r: String)
    requires
        index < usize::MAX,
    ensures
        r@ == "Display "@ + decimal((index + 1) as nat),
{
    let mut r = owned("Display ");
    push_decimal(&mut r, index + 1);
    r
}

/// File name of a captured region, from a unique id.
pub fn region_capture_file_name(unique_id: &str) -> (r: String)
    ensures
        r@ == "region_capture_"@ + unique_id@ + ".png"@,
{
    concat3("region_capture_", unique_id, ".png")
}

/// Whether display `index` is among `count` displays; the error names an
/// index out of range.
pub fn check_display_index(index: usize, count: usize) -> (r: Result<(), String>)
    ensures
        index < count ==> r is Ok,
        index >= count ==> (r matches Err(e) && e@ == "Display index "@ + decimal(index as nat)
            + " out of range"@),
{
    if index < count {
        Ok(())
    } else {
        let mut e = owned("Display index ");
        push_decimal(&mut e, index);
        e.append(" out of range");
        Err(e)
    }
}

} // verus!
