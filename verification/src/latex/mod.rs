//! LaTeX markup: the elements that a document is made of, and what each renders to.

pub mod alignment;
pub mod builder;
pub mod markup;
pub mod template;

pub use self::alignment::Alignment;
pub use self::builder::{LatexDoc, LatexDocument};
pub use self::markup::{Markup, MarkupView, Role};
pub use crate::document::{Document, DocumentError, InstanceGuard};

use crate::numeral::push_decimal;
use vstd::prelude::*;

verus! {

/// Something that stands for a piece of markup text.
pub trait Element {
    /// The markup text of this element.
    spec fn text(&self) -> Seq<char>;

    /// Produces the markup text. Rendering changes nothing and cannot fail: the same
    /// element always gives the same text.
    fn render(&self) -> (out: String)
        ensures
            out@ == self.text(),
    ;
}

/// Rendering is repeatable: two renderings of one element are the same text.
pub proof fn render_is_repeatable<E: Element>(element: &E, first: String, second: String)
    requires
        first@ == element.text(),
        second@ == element.text(),
    ensures
        first@ == second@,
{
}

/// The class of a document, with the font size in points.
#[derive(Clone, Copy, Debug, PartialEq, Eq)]
pub enum DocumentClass {
    Article(usize),
}

impl DocumentClass {
    /// The font size, in points.
    pub open spec fn size(&self) -> nat {
        match self {
            DocumentClass::Article(size) => *size as nat,
        }
    }
}

impl Element for DocumentClass {
    open spec fn text(&self) -> Seq<char> {
        template::class_declaration(self.size())
    }

    fn render(&self) -> (out: String) {
        match self {
            DocumentClass::Article(size) => {
                let mut out = String::from_str("\\documentclass[");
                push_decimal(&mut out, *size);
                out.append("pt]{article}");
                out
            },
        }
    }
}

/// A package that a document loads, with the options handed to it, if any.
#[derive(Debug, PartialEq, Eq)]
pub enum Package {
    Array(Option<String>),
}

impl Package {
    /// The name that the package is loaded by.
    pub open spec fn name(&self) -> Seq<char> {
        match self {
            Package::Array(_) => "Array"@,
        }
    }

    /// The options handed to the package.
    pub open spec fn options(&self) -> Option<Seq<char>> {
        match self {
            Package::Array(Some(options)) => Some(options@),
            Package::Array(None) => None,
        }
    }
}

impl Element for Package {
    open spec fn text(&self) -> Seq<char> {
        template::package_inclusion(self.name(), self.options())
    }

    fn render(&self) -> (out: String) {
        match self {
            Package::Array(Some(options)) => {
                let mut out = String::from_str("\\usepackage[");
                out.append(options.as_str());
                out.append("]{");
                out.append("Array");
                out.append("}");
                out
            },
            Package::Array(None) => {
                let mut out = String::from_str("\\usepackage{");
                out.append("Array");
                out.append("}");
                out
            },
        }
    }
}

} // verus!
