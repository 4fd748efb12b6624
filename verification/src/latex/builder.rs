//! The LaTeX document and the calls that build it.

use crate::document::sequencing::{
    accepts, append, document_text, document_text_push, initialized_after_push, is_initialized,
};
use crate::document::{Document, DocumentError, InstanceGuard};
use crate::latex::markup::texts;
use crate::latex::{DocumentClass, Element, Markup, MarkupView, Role};
use vstd::prelude::*;

verus! {

/// A LaTeX document under construction.
#[derive(Debug)]
pub struct LatexDoc {
    elements: Vec<Markup>,
    initialized: bool,
}

/// The views of a sequence of elements.
spec fn views(elements: Seq<Markup>) -> Seq<MarkupView> {
    elements.map_values(|e: Markup| e@)
}

/// Copies borrowed strings into owned ones.
fn owned(list: &Vec<&str>) -> (items: Vec<String>)
    ensures
        texts(items@) == texts(list@),
{
    let mut items: Vec<String> = Vec::new();
    let mut done: usize = 0;
    while done < list.len()
        invariant
            done <= list.len(),
            items@.len() == done,
            forall|i: int| 0 <= i < done ==> (#[trigger] items@[i])@ == list@[i]@,
        decreases list.len() - done,
    {
        items.push(String::from_str(list[done]));
        done += 1;
    }
    items
}

impl LatexDoc {
    /// The flag says whether an initializing element is among the elements.
    #[verifier::type_invariant]
    spec fn flag_matches_elements(&self) -> bool {
        self.initialized == is_initialized(views(self.elements@))
    }

    /// Whether `element` may be appended now.
    fn admits(&self, element: &Markup) -> (admitted: bool)
        ensures
            admitted == accepts(self.elements(), element@),
    {
        proof {
            use_type_invariant(self);
        }
        match element.role() {
            Role::Preamble => true,
            Role::Initializer => !self.initialized,
            Role::Body => self.initialized,
        }
    }

    /// Puts an element that may stand at this place at the end of the document.
    fn push(&mut self, element: Markup)
        requires
            accepts(old(self).elements(), element@),
        ensures
            final(self).elements() == old(self).elements().push(element@),
    {
        proof {
            use_type_invariant(&*self);
            initialized_after_push(self.elements(), element@);
        }
        let opens = match element.role() {
            Role::Initializer => true,
            _ => false,
        };
        // The vector is taken out and a whole document put back, so that the flag and the
        // elements change together.
        let mut taken = LatexDoc { elements: Vec::new(), initialized: false };
        core::mem::swap(self, &mut taken);
        let ghost before = taken.elements@;
        let mut elements = taken.elements;
        let initialized = taken.initialized || opens;
        elements.push(element);
        assert(views(elements@) =~= views(before).push(element@));
        *self = LatexDoc { elements, initialized };
    }
}

impl Document for LatexDoc {
    closed spec fn elements(&self) -> Seq<MarkupView> {
        views(self.elements@)
    }

    fn new(guard: &mut InstanceGuard) -> (result: Result<Self, DocumentError>) {
        <Self as Document>::create_document(guard)
    }

    fn create_document(guard: &mut InstanceGuard) -> (result: Result<Self, DocumentError>) {
        match guard.claim() {
            Ok(()) => Ok(LatexDoc { elements: Vec::new(), initialized: false }),
            Err(error) => Err(error),
        }
    }

    fn add(&mut self, element: Markup) -> (result: Result<&mut Self, DocumentError>) {
        if self.admits(&element) {
            self.push(element);
            Ok(self)
        } else {
            Err(DocumentError::SequencingViolation)
        }
    }

    fn title(&mut self, title: &str) -> (result: Result<&mut Self, DocumentError>) {
        self.add(Markup::TitleBlock(String::from_str(title)))
    }

    fn new_paragraph(&mut self, par: &str) -> (result: Result<&mut Self, DocumentError>) {
        self.add(Markup::Paragraph(String::from_str(par)))
    }
}

/// The calls that build a LaTeX document, each of which appends one element.
pub trait LatexDocument: Document {
    /// Appends the declaration of the document's class. It belongs to the preamble and
    /// is always accepted.
    fn create_document(&mut self, class: &DocumentClass) -> (doc: &mut Self)
        ensures
            doc.elements() == old(self).elements().push(
                MarkupView::ClassDeclaration { size: class.size() },
            ),
            *final(doc) == *final(self),
    ;

    /// Appends the bare opening of the body.
    fn begin_document(&mut self) -> (result: Result<&mut Self, DocumentError>)
        ensures
            match append(old(self).elements(), MarkupView::BeginDocument) {
                Ok(next) => result matches Ok(doc) && doc.elements() == next && *final(doc)
                    == *final(self),
                Err(error) => result matches Err(refusal) && refusal == error && *final(self)
                    == *old(self),
            },
    ;

    /// Appends the closing of the body.
    fn end_document(&mut self) -> (result: Result<&mut Self, DocumentError>)
        ensures
            match append(old(self).elements(), MarkupView::EndDocument) {
                Ok(next) => result matches Ok(doc) && doc.elements() == next && *final(doc)
                    == *final(self),
                Err(error) => result matches Err(refusal) && refusal == error && *final(self)
                    == *old(self),
            },
    ;

    /// Appends a section heading.
    fn section(&mut self, title: &str) -> (result: Result<&mut Self, DocumentError>)
        ensures
            match append(old(self).elements(), MarkupView::Section { title: title@ }) {
                Ok(next) => result matches Ok(doc) && doc.elements() == next && *final(doc)
                    == *final(self),
                Err(error) => result matches Err(refusal) && refusal == error && *final(self)
                    == *old(self),
            },
    ;

    /// Appends a bulleted list of the given items.
    fn unordered_list(&mut self, list: &Vec<&str>) -> (result: Result<&mut Self, DocumentError>)
        ensures
            match append(
                old(self).elements(),
                MarkupView::UnorderedList { items: texts(list@) },
            ) {
                Ok(next) => result matches Ok(doc) && doc.elements() == next && *final(doc)
                    == *final(self),
                Err(error) => result matches Err(refusal) && refusal == error && *final(self)
                    == *old(self),
            },
    ;

    /// Appends a numbered list of the given items.
    fn ordered_list(&mut self, list: &Vec<&str>) -> (result: Result<&mut Self, DocumentError>)
        ensures
            match append(
                old(self).elements(),
                MarkupView::OrderedList { items: texts(list@) },
            ) {
                Ok(next) => result matches Ok(doc) && doc.elements() == next && *final(doc)
                    == *final(self),
                Err(error) => result matches Err(refusal) && refusal == error && *final(self)
                    == *old(self),
            },
    ;

    /// Appends the place of the table of contents.
    fn toc(&mut self) -> (result: Result<&mut Self, DocumentError>)
        ensures
            match append(old(self).elements(), MarkupView::TableOfContents) {
                Ok(next) => result matches Ok(doc) && doc.elements() == next && *final(doc)
                    == *final(self),
                Err(error) => result matches Err(refusal) && refusal == error && *final(self)
                    == *old(self),
            },
    ;

    /// Appends a page break.
    fn new_page(&mut self) -> (result: Result<&mut Self, DocumentError>)
        ensures
            match append(old(self).elements(), MarkupView::PageBreak) {
                Ok(next) => result matches Ok(doc) && doc.elements() == next && *final(doc)
                    == *final(self),
                Err(error) => result matches Err(refusal) && refusal == error && *final(self)
                    == *old(self),
            },
    ;
}

impl LatexDocument for LatexDoc {
    fn create_document(&mut self, class: &DocumentClass) -> (doc: &mut Self) {
        self.push(Markup::ClassDeclaration(*class));
        self
    }

    fn begin_document(&mut self) -> (result: Result<&mut Self, DocumentError>) {
        self.add(Markup::BeginDocument)
    }

    fn end_document(&mut self) -> (result: Result<&mut Self, DocumentError>) {
        self.add(Markup::EndDocument)
    }

    fn section(&mut self, title: &str) -> (result: Result<&mut Self, DocumentError>) {
        self.add(Markup::Section(String::from_str(title)))
    }

    fn unordered_list(&mut self, list: &Vec<&str>) -> (result: Result<&mut Self, DocumentError>) {
        self.add(Markup::UnorderedList(owned(list)))
    }

    fn ordered_list(&mut self, list: &Vec<&str>) -> (result: Result<&mut Self, DocumentError>) {
        self.add(Markup::OrderedList(owned(list)))
    }

    fn toc(&mut self) -> (result: Result<&mut Self, DocumentError>) {
        self.add(Markup::TableOfContents)
    }

    fn new_page(&mut self) -> (result: Result<&mut Self, DocumentError>) {
        self.add(Markup::PageBreak)
    }
}

impl Element for LatexDoc {
    open spec fn text(&self) -> Seq<char> {
        document_text(self.elements())
    }

    fn render(&self) -> (out: String) {
        let mut out = String::new();
        let mut done: usize = 0;
        while done < self.elements.len()
            invariant
                done <= self.elements.len(),
                self.elements() == views(self.elements@),
                out@ == document_text(self.elements().take(done as int)),
            decreases self.elements.len() - done,
        {
            proof {
                let before = self.elements().take(done as int);
                let next = self.elements@[done as int]@;
                assert(self.elements().take(done + 1) =~= before.push(next));
                document_text_push(before, next);
            }
            let text = self.elements[done].render();
            out.append(text.as_str());
            out.append("\n");
            done += 1;
        }
        assert(self.elements().take(done as int) =~= self.elements());
        out
    }
}

} // verus!
