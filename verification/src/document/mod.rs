//! The builder protocol of a document.

pub mod guard;
pub mod sequencing;

pub use self::guard::InstanceGuard;

use self::guard::request;
use self::sequencing::append;
use crate::latex::{Markup, MarkupView};
use vstd::prelude::*;

verus! {

/// What goes wrong when a document is misused.
#[derive(Clone, Copy, Debug, PartialEq, Eq, Structural)]
pub enum DocumentError {
    /// A document was asked for while another one was live.
    SingletonViolation,
    /// An element was appended out of order.
    SequencingViolation,
}

/// A document that is built by appending elements.
pub trait Document: Sized {
    /// The elements of the document, in the order in which they were appended.
    spec fn elements(&self) -> Seq<MarkupView>;

    /// Creates an empty document, if no document is live under `guard`. This is
    /// `create_document` under its other name.
    fn new(guard: &mut InstanceGuard) -> (result: Result<Self, DocumentError>)
        ensures
            final(guard).occupied(),
            match request(old(guard).occupied()) {
                Ok(_) => result matches Ok(doc) && doc.elements() == Seq::<MarkupView>::empty(),
                Err(error) => result matches Err(refusal) && refusal == error,
            },
    ;

    /// Creates an empty document, if no document is live under `guard`. A request that
    /// is refused still leaves the guard occupied, by the document that was live before.
    fn create_document(guard: &mut InstanceGuard) -> (result: Result<Self, DocumentError>)
        ensures
            final(guard).occupied(),
            match request(old(guard).occupied()) {
                Ok(_) => result matches Ok(doc) && doc.elements() == Seq::<MarkupView>::empty(),
                Err(error) => result matches Err(refusal) && refusal == error,
            },
    ;

    /// Appends an element, if it may stand at this place. A rejected element leaves the
    /// document as it was.
    fn add(&mut self, element: Markup) -> (result: Result<&mut Self, DocumentError>)
        ensures
            match append(old(self).elements(), element@) {
                Ok(next) => result matches Ok(doc) && doc.elements() == next && *final(doc)
                    == *final(self),
                Err(error) => result matches Err(refusal) && refusal == error && *final(self)
                    == *old(self),
            },
    ;

    /// Appends the title block, which opens the body.
    fn title(&mut self, title: &str) -> (result: Result<&mut Self, DocumentError>)
        ensures
            match append(old(self).elements(), MarkupView::TitleBlock { title: title@ }) {
                Ok(next) => result matches Ok(doc) && doc.elements() == next && *final(doc)
                    == *final(self),
                Err(error) => result matches Err(refusal) && refusal == error && *final(self)
                    == *old(self),
            },
    ;

    /// Appends a paragraph.
    fn new_paragraph(&mut self, par: &str) -> (result: Result<&mut Self, DocumentError>)
        ensures
            match append(old(self).elements(), MarkupView::Paragraph { text: par@ }) {
                Ok(next) => result matches Ok(doc) && doc.elements() == next && *final(doc)
                    == *final(self),
                Err(error) => result matches Err(refusal) && refusal == error && *final(self)
                    == *old(self),
            },
    ;
}

} // verus!
