//! The text of each markup form, as a function of what the form carries.
//!
//! What a form carries is put into its text as it is: nothing is escaped.

use crate::numeral::decimal;
use vstd::prelude::*;

verus! {

/// `\documentclass[<size>pt]{article}`
pub open spec fn class_declaration(size: nat) -> Seq<char> {
    "\\documentclass["@ + decimal(size) + "pt]{article}"@
}

/// `\usepackage{<name>}`, or `\usepackage[<options>]{<name>}` where options are given.
pub open spec fn package_inclusion(name: Seq<char>, options: Option<Seq<char>>) -> Seq<char> {
    match options {
        Some(options) => "\\usepackage["@ + options + "]{"@ + name + "}"@,
        None => "\\usepackage{"@ + name + "}"@,
    }
}

/// The five lines that announce the title and open the body:
/// `\title{<title>}`, `\today`, `\begin{document}`, `\maketitle`, `\newpage`.
pub open spec fn title_block(title: Seq<char>) -> Seq<char> {
    "\\title{"@ + title + "}\n\\today\n\\begin{document}\n\\maketitle\n\\newpage"@
}

/// `\begin{document}`
pub open spec fn begin_document() -> Seq<char> {
    "\\begin{document}"@
}

/// `\end{document}`
pub open spec fn end_document() -> Seq<char> {
    "\\end{document}"@
}

/// `\section{<title>}`
pub open spec fn section(title: Seq<char>) -> Seq<char> {
    "\\section{"@ + title + "}"@
}

/// `\paragraph{}` and, on the next line, the paragraph's text.
pub open spec fn paragraph(text: Seq<char>) -> Seq<char> {
    "\\paragraph{}\n"@ + text
}

/// `\tableofcontents`
pub open spec fn table_of_contents() -> Seq<char> {
    "\\tableofcontents"@
}

/// `\clearpage`
pub open spec fn page_break() -> Seq<char> {
    "\\clearpage"@
}

/// `\begin{<name>}` on a line of its own, then `content`, then `\end{<name>}`.
pub open spec fn environment(name: Seq<char>, content: Seq<char>) -> Seq<char> {
    "\\begin{"@ + name + "}\n"@ + content + "\\end{"@ + name + "}"@
}

/// One line of a list: `\item <text>` and a line break.
pub open spec fn item_line(text: Seq<char>) -> Seq<char> {
    "\\item "@ + text + "\n"@
}

/// The lines of a list's items, in order.
pub open spec fn item_lines(items: Seq<Seq<char>>) -> Seq<char> {
    items.map_values(|text: Seq<char>| item_line(text)).flatten()
}

/// A list: the environment `name` around one `\item` line for each item.
pub open spec fn list(name: Seq<char>, items: Seq<Seq<char>>) -> Seq<char> {
    environment(name, item_lines(items))
}

/// `\begin{itemize}`, one `\item` line for each item, `\end{itemize}`.
pub open spec fn unordered_list(items: Seq<Seq<char>>) -> Seq<char> {
    list("itemize"@, items)
}

/// `\begin{enumerate}`, one `\item` line for each item, `\end{enumerate}`.
pub open spec fn ordered_list(items: Seq<Seq<char>>) -> Seq<char> {
    list("enumerate"@, items)
}

/// Text on a line of its own inside the environment `name`.
pub open spec fn aligned(name: Seq<char>, text: Seq<char>) -> Seq<char> {
    environment(name, text + "\n"@)
}

/// Text wrapped in `\begin{flushleft}` and `\end{flushleft}`.
pub open spec fn flush_left(text: Seq<char>) -> Seq<char> {
    aligned("flushleft"@, text)
}

/// Text wrapped in `\begin{center}` and `\end{center}`.
pub open spec fn centered(text: Seq<char>) -> Seq<char> {
    aligned("center"@, text)
}

/// Extending a list by one item extends its lines by that item's line.
pub proof fn item_lines_push(items: Seq<Seq<char>>, text: Seq<char>)
    ensures
        item_lines(items.push(text)) == item_lines(items) + item_line(text),
{
    let each = |text: Seq<char>| item_line(text);
    assert(items.push(text).map_values(each) =~= items.map_values(each).push(item_line(text)));
    items.map_values(each).lemma_flatten_push(item_line(text));
}

} // verus!
