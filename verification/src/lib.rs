//! A small builder for LaTeX documents.
//!
//! A document is an ordered sequence of markup elements. Elements are appended one at a
//! time, under a sequencing rule that keeps body content behind the element that opens the
//! body, and the document renders as the text of its elements, one per line.

pub mod document;
pub mod latex;
pub mod numeral;
