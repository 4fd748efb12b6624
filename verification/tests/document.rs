use latex::latex::{
    Document, DocumentClass, DocumentError, Element, InstanceGuard, LatexDoc, LatexDocument,
    Markup, Package,
};

fn fresh() -> LatexDoc {
    let mut guard = InstanceGuard::new();
    let created: Result<LatexDoc, DocumentError> = Document::create_document(&mut guard);
    created.unwrap()
}

fn body_elements() -> Vec<Markup> {
    vec![
        Markup::Section(String::from("s")),
        Markup::Paragraph(String::from("p")),
        Markup::UnorderedList(vec![String::from("i")]),
        Markup::OrderedList(vec![String::from("i")]),
        Markup::TableOfContents,
        Markup::PageBreak,
        Markup::Left(String::from("l")),
        Markup::Center(String::from("c")),
        Markup::EndDocument,
    ]
}

#[test]
fn empty_document_renders_to_nothing() {
    assert_eq!(fresh().render(), "");
}

#[test]
fn class_and_package_render_on_two_lines() {
    let mut doc = fresh();
    doc.add(Markup::ClassDeclaration(DocumentClass::Article(13))).unwrap();
    doc.add(Markup::PackageInclusion(Package::Array(None))).unwrap();
    assert_eq!(doc.render(), "\\documentclass[13pt]{article}\n\\usepackage{Array}\n");
}

#[test]
fn package_options_render_in_brackets() {
    let mut doc = fresh();
    doc.add(Markup::PackageInclusion(Package::Array(Some(String::from("options"))))).unwrap();
    assert_eq!(doc.render(), "\\usepackage[options]{Array}\n");
}

#[test]
fn preamble_elements_render_in_the_order_of_their_appends() {
    let mut doc = fresh();
    doc.add(Markup::PackageInclusion(Package::Array(None))).unwrap();
    doc.add(Markup::ClassDeclaration(DocumentClass::Article(10))).unwrap();
    doc.add(Markup::PackageInclusion(Package::Array(Some(String::from("x"))))).unwrap();
    doc.add(Markup::ClassDeclaration(DocumentClass::Article(12))).unwrap();
    assert_eq!(
        doc.render(),
        "\\usepackage{Array}\n\\documentclass[10pt]{article}\n\\usepackage[x]{Array}\n\\documentclass[12pt]{article}\n"
    );

    let mut other = fresh();
    other.add(Markup::ClassDeclaration(DocumentClass::Article(10))).unwrap();
    other.add(Markup::PackageInclusion(Package::Array(None))).unwrap();
    assert_eq!(other.render(), "\\documentclass[10pt]{article}\n\\usepackage{Array}\n");
}

#[test]
fn preamble_stands_before_what_is_appended_later() {
    let mut doc = fresh();
    doc.add(Markup::ClassDeclaration(DocumentClass::Article(11))).unwrap();
    doc.add(Markup::PackageInclusion(Package::Array(None))).unwrap();
    let preamble = doc.render();
    doc.title("T").unwrap();
    doc.section("S").unwrap();
    let whole = doc.render();
    assert!(whole.starts_with(preamble.as_str()));
    assert_eq!(
        &whole[preamble.len()..],
        "\\title{T}\n\\today\n\\begin{document}\n\\maketitle\n\\newpage\n\\section{S}\n"
    );
}

#[test]
fn body_element_before_initialization_is_rejected() {
    for element in body_elements() {
        let mut doc = fresh();
        assert_eq!(doc.add(element).err(), Some(DocumentError::SequencingViolation));
        assert_eq!(doc.render(), "");
    }
}

#[test]
fn body_element_after_preamble_alone_is_rejected() {
    for element in body_elements() {
        let mut doc = fresh();
        doc.add(Markup::ClassDeclaration(DocumentClass::Article(10))).unwrap();
        doc.add(Markup::PackageInclusion(Package::Array(None))).unwrap();
        assert_eq!(doc.add(element).err(), Some(DocumentError::SequencingViolation));
    }
}

#[test]
fn body_element_after_initialization_is_accepted() {
    for element in body_elements() {
        let mut doc = fresh();
        doc.add(Markup::BeginDocument).unwrap();
        let line = element.render() + "\n";
        assert!(doc.add(element).is_ok());
        assert_eq!(doc.render(), String::from("\\begin{document}\n") + line.as_str());
    }
}

#[test]
fn builder_calls_before_initialization_are_rejected() {
    let mut doc = fresh();
    assert_eq!(doc.section("s").err(), Some(DocumentError::SequencingViolation));
    assert_eq!(doc.new_paragraph("p").err(), Some(DocumentError::SequencingViolation));
    assert_eq!(doc.unordered_list(&vec!["a"]).err(), Some(DocumentError::SequencingViolation));
    assert_eq!(doc.ordered_list(&vec!["a"]).err(), Some(DocumentError::SequencingViolation));
    assert_eq!(doc.toc().err(), Some(DocumentError::SequencingViolation));
    assert_eq!(doc.new_page().err(), Some(DocumentError::SequencingViolation));
    assert_eq!(doc.end_document().err(), Some(DocumentError::SequencingViolation));
    assert_eq!(doc.render(), "");
}

#[test]
fn second_initialization_is_rejected() {
    let mut doc = fresh();
    doc.add(Markup::TitleBlock(String::from("T"))).unwrap();
    assert_eq!(
        doc.add(Markup::TitleBlock(String::from("U"))).err(),
        Some(DocumentError::SequencingViolation)
    );
    assert_eq!(doc.add(Markup::BeginDocument).err(), Some(DocumentError::SequencingViolation));
    assert_eq!(doc.title("V").err(), Some(DocumentError::SequencingViolation));
    assert_eq!(doc.begin_document().err(), Some(DocumentError::SequencingViolation));

    let mut other = fresh();
    other.begin_document().unwrap();
    assert_eq!(other.begin_document().err(), Some(DocumentError::SequencingViolation));
    assert_eq!(other.title("T").err(), Some(DocumentError::SequencingViolation));
}

#[test]
fn second_initialization_is_rejected_after_more_appends() {
    let mut doc = fresh();
    doc.title("T").unwrap();
    doc.section("S").unwrap();
    doc.add(Markup::PackageInclusion(Package::Array(None))).unwrap();
    doc.end_document().unwrap();
    assert_eq!(doc.begin_document().err(), Some(DocumentError::SequencingViolation));
    assert_eq!(doc.title("T").err(), Some(DocumentError::SequencingViolation));
}

#[test]
fn rejected_element_leaves_the_document_as_it_was() {
    let mut doc = fresh();
    doc.add(Markup::ClassDeclaration(DocumentClass::Article(10))).unwrap();
    let before = doc.render();
    assert!(doc.section("early").is_err());
    assert_eq!(doc.render(), before);
    doc.title("T").unwrap();
    let opened = doc.render();
    assert!(doc.begin_document().is_err());
    assert_eq!(doc.render(), opened);
    assert!(doc.section("now").is_ok());
}

#[test]
fn preamble_elements_are_accepted_in_either_state() {
    let mut doc = fresh();
    doc.add(Markup::PackageInclusion(Package::Array(None))).unwrap();
    doc.begin_document().unwrap();
    doc.add(Markup::PackageInclusion(Package::Array(Some(String::from("late"))))).unwrap();
    doc.create_document(&DocumentClass::Article(9));
    assert_eq!(
        doc.render(),
        "\\usepackage{Array}\n\\begin{document}\n\\usepackage[late]{Array}\n\\documentclass[9pt]{article}\n"
    );
}

#[test]
fn render_twice_gives_the_same_text() {
    let mut doc = fresh();
    assert_eq!(doc.render(), doc.render());
    doc.create_document(&DocumentClass::Article(12));
    doc.title("Twice").unwrap();
    doc.unordered_list(&vec!["a", "b"]).unwrap();
    let first = doc.render();
    let second = doc.render();
    assert_eq!(first, second);
    assert_eq!(
        first,
        "\\documentclass[12pt]{article}\n\\title{Twice}\n\\today\n\\begin{document}\n\\maketitle\n\\newpage\n\\begin{itemize}\n\\item a\n\\item b\n\\end{itemize}\n"
    );
}

#[test]
fn calls_chain() {
    let mut doc = fresh();
    doc.create_document(&DocumentClass::Article(12))
        .title("Chained")
        .unwrap()
        .toc()
        .unwrap()
        .new_page()
        .unwrap()
        .section("One")
        .unwrap()
        .new_paragraph("Text.")
        .unwrap()
        .ordered_list(&vec!["x", "y"])
        .unwrap()
        .end_document()
        .unwrap();
    assert_eq!(
        doc.render(),
        "\\documentclass[12pt]{article}\n\
         \\title{Chained}\n\\today\n\\begin{document}\n\\maketitle\n\\newpage\n\
         \\tableofcontents\n\
         \\clearpage\n\
         \\section{One}\n\
         \\paragraph{}\nText.\n\
         \\begin{enumerate}\n\\item x\n\\item y\n\\end{enumerate}\n\
         \\end{document}\n"
    );
}

#[test]
fn chain_stops_at_the_first_rejected_call() {
    fn build(doc: &mut LatexDoc) -> Result<(), DocumentError> {
        doc.begin_document()?.section("kept")?.begin_document()?.section("lost")?;
        Ok(())
    }
    let mut doc = fresh();
    assert_eq!(build(&mut doc), Err(DocumentError::SequencingViolation));
    assert_eq!(doc.render(), "\\begin{document}\n\\section{kept}\n");
}

#[test]
fn builder_calls_append_what_add_appends() {
    let mut built = fresh();
    built.create_document(&DocumentClass::Article(10));
    built.begin_document().unwrap();
    built.section("S").unwrap();
    built.new_paragraph("P").unwrap();
    built.unordered_list(&vec!["a"]).unwrap();
    built.ordered_list(&vec!["b", "c"]).unwrap();
    built.toc().unwrap();
    built.new_page().unwrap();
    built.end_document().unwrap();

    let mut added = fresh();
    added.add(Markup::ClassDeclaration(DocumentClass::Article(10))).unwrap();
    added.add(Markup::BeginDocument).unwrap();
    added.add(Markup::Section(String::from("S"))).unwrap();
    added.add(Markup::Paragraph(String::from("P"))).unwrap();
    added.add(Markup::UnorderedList(vec![String::from("a")])).unwrap();
    added.add(Markup::OrderedList(vec![String::from("b"), String::from("c")])).unwrap();
    added.add(Markup::TableOfContents).unwrap();
    added.add(Markup::PageBreak).unwrap();
    added.add(Markup::EndDocument).unwrap();

    assert_eq!(built.render(), added.render());

    let mut titled = fresh();
    titled.title("T").unwrap();
    let mut same = fresh();
    same.add(Markup::TitleBlock(String::from("T"))).unwrap();
    assert_eq!(titled.render(), same.render());
}

#[test]
fn document_can_grow_after_its_end() {
    let mut doc = fresh();
    doc.begin_document().unwrap();
    doc.end_document().unwrap();
    doc.section("after").unwrap();
    assert_eq!(doc.render(), "\\begin{document}\n\\end{document}\n\\section{after}\n");
}

#[test]
fn empty_lists_are_appended_as_they_are() {
    let mut doc = fresh();
    doc.begin_document().unwrap();
    doc.unordered_list(&Vec::new()).unwrap();
    assert_eq!(doc.render(), "\\begin{document}\n\\begin{itemize}\n\\end{itemize}\n");
}
