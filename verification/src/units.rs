//! Human-readable rendering of byte counts.

use vstd::prelude::*;

verus! {

/// The text that `byte_unit` renders for a byte count in its best-fitting
/// binary unit, such as `"465.66 GiB"`.
///
/// The rendering divides in floating point and rounds to two decimals, so it
/// is named here rather than spelled out.
pub uninterp spec fn capacity_text(bytes: u64) -> Seq<char>;

/// Renders a byte count the way the menu shows it.
///
/// Trusted: calls `byte_unit::Byte::from_bytes`, then
/// `Byte::get_appropriate_unit(true)` and the `Display` impl of the
/// `AdjustedByte` it returns. The contract only claims that the text is a
/// function of the byte count.
#[verifier::external_body]
pub(crate) fn render_capacity(bytes: u64) -> (text: String)
    ensures
        text@ == capacity_text(bytes),
{
    byte_unit::Byte::from_bytes(bytes.into()).get_appropriate_unit(true).to_string()
}

} // verus!
