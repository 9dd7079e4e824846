//! Display text for values that the output format cannot hold as numbers.

use crate::codec::Wire;
use vstd::prelude::*;

verus! {

/// The ten decimal digits.
pub open spec fn digits() -> Seq<char> {
    seq!['0', '1', '2', '3', '4', '5', '6', '7', '8', '9']
}

/// The decimal numeral of `n`: no sign, no leading zero, `"0"` for zero.
pub open spec fn decimal(n: nat) -> Seq<char>
    decreases n,
{
    if n < 10 {
        seq![digits()[n as int]]
    } else {
        decimal(n / 10).push(digits()[(n % 10) as int])
    }
}

/// A value that has a display text.
pub trait Textual: Wire {
    /// The display text of `m`.
    spec fn text(m: Self::Model) -> Seq<char>;

    /// The display text of `self`.
    fn to_text(&self) -> (s: String)
        ensures
            s@ == Self::text(self.model()),
    ;
}

/// Formats a `u128` with `Display`. The contract claims that the text is the
/// decimal numeral of the number.
#[verifier::external_body]
fn display_u128(x: u128) -> (s: String)
    ensures
        s@ == decimal(x as nat),
{
    format!("{}", x)
}

impl Textual for u128 {
    open spec fn text(m: u128) -> Seq<char> {
        decimal(m as nat)
    }

    fn to_text(&self) -> (s: String) {
        display_u128(*self)
    }
}

} // verus!
