//! The catalog of markup elements.

use crate::latex::template;
use crate::latex::{DocumentClass, Element, Package};
use vstd::prelude::*;

verus! {

/// The part that an element plays in the order of a document.
#[derive(Clone, Copy, Debug, PartialEq, Eq, Structural)]
pub enum Role {
    /// Belongs to the preamble; may be appended at any time.
    Preamble,
    /// Opens the body; may be appended once.
    Initializer,
    /// Belongs to the body; may be appended once the body is open.
    Body,
}

/// An element of a document. The catalog is closed: these are all the elements there are.
#[derive(Debug, PartialEq, Eq)]
pub enum Markup {
    /// The declaration of the document's class.
    ClassDeclaration(DocumentClass),
    /// The inclusion of a package.
    PackageInclusion(Package),
    /// The title block, which also opens the body.
    TitleBlock(String),
    /// The bare opening of the body.
    BeginDocument,
    /// A section heading.
    Section(String),
    /// A paragraph of text.
    Paragraph(String),
    /// A bulleted list.
    UnorderedList(Vec<String>),
    /// A numbered list.
    OrderedList(Vec<String>),
    /// The place of the table of contents.
    TableOfContents,
    /// A page break.
    PageBreak,
    /// Text set flush left.
    Left(String),
    /// Text set centered.
    Center(String),
    /// The closing of the body.
    EndDocument,
}

/// What an element is, as a value of mathematics.
pub enum MarkupView {
    ClassDeclaration { size: nat },
    PackageInclusion { name: Seq<char>, options: Option<Seq<char>> },
    TitleBlock { title: Seq<char> },
    BeginDocument,
    Section { title: Seq<char> },
    Paragraph { text: Seq<char> },
    UnorderedList { items: Seq<Seq<char>> },
    OrderedList { items: Seq<Seq<char>> },
    TableOfContents,
    PageBreak,
    Left { text: Seq<char> },
    Center { text: Seq<char> },
    EndDocument,
}

impl MarkupView {
    /// The markup text of the element.
    pub open spec fn text(self) -> Seq<char> {
        match self {
            MarkupView::ClassDeclaration { size } => template::class_declaration(size),
            MarkupView::PackageInclusion { name, options } => template::package_inclusion(
                name,
                options,
            ),
            MarkupView::TitleBlock { title } => template::title_block(title),
            MarkupView::BeginDocument => template::begin_document(),
            MarkupView::Section { title } => template::section(title),
            MarkupView::Paragraph { text } => template::paragraph(text),
            MarkupView::UnorderedList { items } => template::unordered_list(items),
            MarkupView::OrderedList { items } => template::ordered_list(items),
            MarkupView::TableOfContents => template::table_of_contents(),
            MarkupView::PageBreak => template::page_break(),
            MarkupView::Left { text } => template::flush_left(text),
            MarkupView::Center { text } => template::centered(text),
            MarkupView::EndDocument => template::end_document(),
        }
    }

    /// The part that the element plays in the order of a document.
    pub open spec fn role(self) -> Role {
        match self {
            MarkupView::ClassDeclaration { .. } | MarkupView::PackageInclusion { .. } => {
                Role::Preamble
            },
            MarkupView::TitleBlock { .. } | MarkupView::BeginDocument => Role::Initializer,
            _ => Role::Body,
        }
    }
}

/// The texts of a sequence of strings.
pub open spec fn texts<S: View<V = Seq<char>>>(strings: Seq<S>) -> Seq<Seq<char>> {
    strings.map_values(|s: S| s@)
}

impl View for Markup {
    type V = MarkupView;

    open spec fn view(&self) -> MarkupView {
        match self {
            Markup::ClassDeclaration(class) => MarkupView::ClassDeclaration { size: class.size() },
            Markup::PackageInclusion(package) => MarkupView::PackageInclusion {
                name: package.name(),
                options: package.options(),
            },
            Markup::TitleBlock(title) => MarkupView::TitleBlock { title: title@ },
            Markup::BeginDocument => MarkupView::BeginDocument,
            Markup::Section(title) => MarkupView::Section { title: title@ },
            Markup::Paragraph(text) => MarkupView::Paragraph { text: text@ },
            Markup::UnorderedList(items) => MarkupView::UnorderedList { items: texts(items@) },
            Markup::OrderedList(items) => MarkupView::OrderedList { items: texts(items@) },
            Markup::TableOfContents => MarkupView::TableOfContents,
            Markup::PageBreak => MarkupView::PageBreak,
            Markup::Left(text) => MarkupView::Left { text: text@ },
            Markup::Center(text) => MarkupView::Center { text: text@ },
            Markup::EndDocument => MarkupView::EndDocument,
        }
    }
}

impl Markup {
    /// The part that the element plays in the order of a document.
    pub fn role(&self) -> (role: Role)
        ensures
            role == self@.role(),
    {
        match self {
            Markup::ClassDeclaration(_) | Markup::PackageInclusion(_) => Role::Preamble,
            Markup::TitleBlock(_) | Markup::BeginDocument => Role::Initializer,
            _ => Role::Body,
        }
    }
}

/// Renders the environment `name` around `content`.
fn render_environment(name: &str, content: &str) -> (out: String)
    ensures
        out@ == template::environment(name@, content@),
{
    let mut out = String::from_str("\\begin{");
    out.append(name);
    out.append("}\n");
    out.append(content);
    out.append("\\end{");
    out.append(name);
    out.append("}");
    out
}

/// Renders the lines of a list's items.
fn render_item_lines(items: &Vec<String>) -> (out: String)
    ensures
        out@ == template::item_lines(texts(items@)),
{
    let mut out = String::new();
    let mut done: usize = 0;
    while done < items.len()
        invariant
            done <= items.len(),
            out@ == template::item_lines(texts(items@.take(done as int))),
        decreases items.len() - done,
    {
        proof {
            let before = items@.take(done as int);
            assert(items@.take(done + 1) =~= before.push(items@[done as int]));
            assert(texts(before.push(items@[done as int])) =~= texts(before).push(
                items@[done as int]@,
            ));
            template::item_lines_push(texts(before), items@[done as int]@);
        }
        out.append("\\item ");
        out.append(items[done].as_str());
        out.append("\n");
        done += 1;
    }
    assert(items@.take(done as int) =~= items@);
    out
}

/// Renders text on a line of its own inside the environment `name`.
pub(crate) fn render_aligned(name: &str, text: &str) -> (out: String)
    ensures
        out@ == template::aligned(name@, text@),
{
    let mut content = String::from_str(text);
    content.append("\n");
    render_environment(name, content.as_str())
}

impl Element for Markup {
    open spec fn text(&self) -> Seq<char> {
        self@.text()
    }

    fn render(&self) -> (out: String) {
        match self {
            Markup::ClassDeclaration(class) => class.render(),
            Markup::PackageInclusion(package) => package.render(),
            Markup::TitleBlock(title) => {
                let mut out = String::from_str("\\title{");
                out.append(title.as_str());
                out.append("}\n\\today\n\\begin{document}\n\\maketitle\n\\newpage");
                out
            },
            Markup::BeginDocument => String::from_str("\\begin{document}"),
            Markup::Section(title) => {
                let mut out = String::from_str("\\section{");
                out.append(title.as_str());
                out.append("}");
                out
            },
            Markup::Paragraph(text) => {
                let mut out = String::from_str("\\paragraph{}\n");
                out.append(text.as_str());
                out
            },
            Markup::UnorderedList(items) => {
                let lines = render_item_lines(items);
                render_environment("itemize", lines.as_str())
            },
            Markup::OrderedList(items) => {
                let lines = render_item_lines(items);
                render_environment("enumerate", lines.as_str())
            },
            Markup::TableOfContents => String::from_str("\\tableofcontents"),
            Markup::PageBreak => String::from_str("\\clearpage"),
            Markup::Left(text) => render_aligned("flushleft", text.as_str()),
            Markup::Center(text) => render_aligned("center", text.as_str()),
            Markup::EndDocument => String::from_str("\\end{document}"),
        }
    }
}

} // verus!
