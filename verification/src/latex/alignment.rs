//! Aligned text.

use crate::latex::markup::render_aligned;
use crate::latex::template;
use vstd::prelude::*;

verus! {

/// Text that can be wrapped in an alignment environment.
pub trait Alignment {
    /// The text to be aligned.
    spec fn content(&self) -> Seq<char>;

    /// The text set flush left, as a line of markup: the `flushleft` environment around
    /// it, and a line break.
    fn left(&self) -> (out: String)
        ensures
            out@ == template::flush_left(self.content()) + "\n"@,
    ;

    /// The text set centered, as a line of markup: the `center` environment around it,
    /// and a line break.
    fn center(&self) -> (out: String)
        ensures
            out@ == template::centered(self.content()) + "\n"@,
    ;
}

impl Alignment for str {
    open spec fn content(&self) -> Seq<char> {
        self@
    }

    fn left(&self) -> (out: String) {
        let mut out = render_aligned("flushleft", self);
        out.append("\n");
        out
    }

    fn center(&self) -> (out: String) {
        let mut out = render_aligned("center", self);
        out.append("\n");
        out
    }
}

} // verus!
