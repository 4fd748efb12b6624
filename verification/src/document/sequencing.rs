//! The order of a document: which element may follow which, and what the whole renders to.
//!
//! A document is modelled by the sequence of its elements, in the order in which they were
//! appended. Everything else is a function of that sequence.

use crate::document::DocumentError;
use crate::latex::{MarkupView, Role};
use vstd::prelude::*;

verus! {

/// Whether the body has been opened: an initializing element has been appended.
pub open spec fn is_initialized(elements: Seq<MarkupView>) -> bool {
    exists|i: int| 0 <= i < elements.len() && (#[trigger] elements[i]).role() == Role::Initializer
}

/// Whether `e` may be appended after `elements`. Preamble elements always may; an
/// initializing element may while the body is not open; body elements may once it is.
pub open spec fn accepts(elements: Seq<MarkupView>, e: MarkupView) -> bool {
    match e.role() {
        Role::Preamble => true,
        Role::Initializer => !is_initialized(elements),
        Role::Body => is_initialized(elements),
    }
}

/// What appending `e` after `elements` gives.
pub open spec fn append(elements: Seq<MarkupView>, e: MarkupView) -> Result<
    Seq<MarkupView>,
    DocumentError,
> {
    if accepts(elements, e) {
        Ok(elements.push(e))
    } else {
        Err(DocumentError::SequencingViolation)
    }
}

/// What appending the elements of `more` after `elements` gives, one after the other,
/// up to the first that is rejected.
pub open spec fn append_all(elements: Seq<MarkupView>, more: Seq<MarkupView>) -> Result<
    Seq<MarkupView>,
    DocumentError,
>
    decreases more.len(),
{
    if more.len() == 0 {
        Ok(elements)
    } else {
        match append(elements, more.first()) {
            Ok(next) => append_all(next, more.drop_first()),
            Err(error) => Err(error),
        }
    }
}

/// Whether every element stands where it was allowed to be appended.
pub open spec fn well_sequenced(elements: Seq<MarkupView>) -> bool {
    forall|i: int|
        0 <= i < elements.len() ==> #[trigger] accepts(elements.take(i), elements[i])
}

/// The line that an element contributes to a document: its text and a line break.
pub open spec fn line(e: MarkupView) -> Seq<char> {
    e.text() + "\n"@
}

/// The text of a document: the lines of its elements, in order.
pub open spec fn document_text(elements: Seq<MarkupView>) -> Seq<char> {
    elements.map_values(|e: MarkupView| line(e)).flatten()
}

/// Appending an element opens the body if the element is an initializing one, and
/// otherwise leaves the body as open or closed as it was.
pub proof fn initialized_after_push(elements: Seq<MarkupView>, e: MarkupView)
    ensures
        is_initialized(elements.push(e)) <==> is_initialized(elements) || e.role()
            == Role::Initializer,
{
    let longer = elements.push(e);
    if is_initialized(elements) {
        let i = choose|i: int|
            0 <= i < elements.len() && (#[trigger] elements[i]).role() == Role::Initializer;
        assert(longer[i] == elements[i]);
    }
    if e.role() == Role::Initializer {
        assert(longer[elements.len() as int] == e);
    }
}

/// An empty document has no text.
pub proof fn document_text_empty()
    ensures
        document_text(Seq::empty()) == Seq::<char>::empty(),
{
}

/// One more element adds its line at the end of the text.
pub proof fn document_text_push(elements: Seq<MarkupView>, e: MarkupView)
    ensures
        document_text(elements.push(e)) == document_text(elements) + line(e),
{
    let each = |e: MarkupView| line(e);
    assert(elements.push(e).map_values(each) =~= elements.map_values(each).push(line(e)));
    elements.map_values(each).lemma_flatten_push(line(e));
}

/// The text of a document is the text of any leading part of it, followed by the text of
/// the rest: what was appended earlier stands earlier in the text, whatever follows.
pub proof fn document_text_concat(earlier: Seq<MarkupView>, later: Seq<MarkupView>)
    ensures
        document_text(earlier + later) == document_text(earlier) + document_text(later),
    decreases later.len(),
{
    if later.len() == 0 {
        document_text_empty();
    } else {
        let front = later.drop_last();
        document_text_concat(earlier, front);
        assert(later =~= front.push(later.last()));
        document_text_push(earlier + front, later.last());
        document_text_push(front, later.last());
    }
}

/// A document without elements is well sequenced.
pub proof fn empty_is_well_sequenced()
    ensures
        well_sequenced(Seq::<MarkupView>::empty()),
{
}

/// Appending keeps a document well sequenced.
pub proof fn append_keeps_order(elements: Seq<MarkupView>, e: MarkupView)
    requires
        well_sequenced(elements),
    ensures
        append(elements, e) matches Ok(next) ==> well_sequenced(next),
{
    if append(elements, e) is Ok {
        let next = elements.push(e);
        assert forall|i: int| 0 <= i < next.len() implies #[trigger] accepts(
            next.take(i),
            next[i],
        ) by {
            if i < elements.len() {
                assert(next.take(i) =~= elements.take(i));
            } else {
                assert(next.take(i) =~= elements);
            }
        }
    }
}

/// A run of appends that succeeds adds its elements in the order given, and keeps a
/// document well sequenced. So every document that is built from an empty one by appends
/// is well sequenced.
pub proof fn appends_keep_order(elements: Seq<MarkupView>, more: Seq<MarkupView>)
    ensures
        append_all(elements, more) matches Ok(grown) ==> grown == elements + more && (
        well_sequenced(elements) ==> well_sequenced(grown)),
    decreases more.len(),
{
    if more.len() > 0 && append(elements, more.first()) is Ok {
        let next = elements.push(more.first());
        appends_keep_order(next, more.drop_first());
        if well_sequenced(elements) {
            append_keeps_order(elements, more.first());
        }
    }
}

/// Preamble elements are accepted whatever came before, in any number and in any order:
/// appending a run of them succeeds, adds them in the order given, leaves the body as open
/// or closed as it was, and adds to the text the line of each, in that order.
pub proof fn preamble_appends_in_order(elements: Seq<MarkupView>, more: Seq<MarkupView>)
    requires
        forall|i: int| 0 <= i < more.len() ==> (#[trigger] more[i]).role() == Role::Preamble,
    ensures
        append_all(elements, more) == Ok::<Seq<MarkupView>, DocumentError>(elements + more),
        is_initialized(elements + more) == is_initialized(elements),
        document_text(elements + more) == document_text(elements) + document_text(more),
    decreases more.len(),
{
    document_text_concat(elements, more);
    if more.len() > 0 {
        let next = elements.push(more.first());
        let rest = more.drop_first();
        preamble_appends_in_order(next, rest);
        initialized_after_push(elements, more.first());
        assert(next + rest =~= elements + more);
    }
}

/// A body element is rejected as long as no initializing element has been appended,
/// whichever body element it is.
pub proof fn body_needs_initialization(elements: Seq<MarkupView>, e: MarkupView)
    requires
        !is_initialized(elements),
        e.role() == Role::Body,
    ensures
        append(elements, e) == Err::<Seq<MarkupView>, DocumentError>(
            DocumentError::SequencingViolation,
        ),
{
}

/// Appending never closes the body: a document that is initialized stays so, whatever
/// is appended to it.
pub proof fn initialization_lasts(elements: Seq<MarkupView>, more: Seq<MarkupView>)
    requires
        is_initialized(elements),
    ensures
        is_initialized(elements + more),
{
    let i = choose|i: int|
        0 <= i < elements.len() && (#[trigger] elements[i]).role() == Role::Initializer;
    assert((elements + more)[i] == elements[i]);
}

/// A document is initialized at most once: once an initializing element has been
/// appended, a second one is rejected, whatever came before the first and whatever was
/// appended in between.
pub proof fn initialization_happens_once(
    elements: Seq<MarkupView>,
    first: MarkupView,
    between: Seq<MarkupView>,
    second: MarkupView,
)
    requires
        first.role() == Role::Initializer,
        second.role() == Role::Initializer,
    ensures
        append(elements.push(first) + between, second) == Err::<Seq<MarkupView>, DocumentError>(
            DocumentError::SequencingViolation,
        ),
{
    initialized_after_push(elements, first);
    initialization_lasts(elements.push(first), between);
}

} // verus!
