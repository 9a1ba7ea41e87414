//! Shared error values.

use crate::coordinate::Coordinate;
use vstd::prelude::*;
use vstd::string::StringExecFns;

verus! {

/// A coordinate left the representable bounds of its field type; carries the
/// offending coordinate for diagnostics.
#[derive(Clone, Copy, Debug, PartialEq, Eq, Structural)]
pub struct CoordinateOutOfBoundsError(pub Coordinate);

impl CoordinateOutOfBoundsError {
    /// The diagnostic text of the error.
    pub open spec fn text_view(self) -> Seq<char> {
        "Coordinate "@ + self.0.text_view() + " is out of bounds! (integer overflow)"@
    }

    /// Renders the diagnostic text of the error.
    pub fn to_text(&self) -> (r: String)
        ensures
            r@ == self.text_view(),
    {
        let mut s = String::new();
        s.append("Coordinate ");
        let c_text = self.0.to_text();
        s.append(c_text.as_str());
        s.append(" is out of bounds! (integer overflow)");
        proof {
            assert(s@ =~= self.text_view());
        }
        s
    }
}

} // verus!
