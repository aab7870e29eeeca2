//! The character-sequence view of a list of rendered lines.

use vstd::prelude::*;

verus! {

/// The views of the rendered lines, in order.
pub open spec fn spec_views(lines: Seq<String>) -> Seq<Seq<char>> {
    lines.map_values(|s: String| s@)
}

} // verus!
