use latex::latex::{Document, DocumentError, Element, InstanceGuard, LatexDoc};

#[test]
fn first_document_is_created() {
    let mut guard = InstanceGuard::new();
    let created: Result<LatexDoc, DocumentError> = Document::create_document(&mut guard);
    assert!(created.is_ok());
    assert_eq!(created.unwrap().render(), "");
}

#[test]
fn second_document_is_refused_while_the_first_is_live() {
    let mut guard = InstanceGuard::new();
    let first: Result<LatexDoc, DocumentError> = Document::create_document(&mut guard);
    assert!(first.is_ok());
    let second: Result<LatexDoc, DocumentError> = Document::create_document(&mut guard);
    assert_eq!(second.err(), Some(DocumentError::SingletonViolation));
    let third: Result<LatexDoc, DocumentError> = Document::new(&mut guard);
    assert_eq!(third.err(), Some(DocumentError::SingletonViolation));
}

#[test]
fn document_is_created_again_after_release() {
    let mut guard = InstanceGuard::new();
    let first: LatexDoc = Document::new(&mut guard).unwrap();
    let refused: Result<LatexDoc, DocumentError> = Document::new(&mut guard);
    assert_eq!(refused.err(), Some(DocumentError::SingletonViolation));
    guard.release(first);
    let again: Result<LatexDoc, DocumentError> = Document::new(&mut guard);
    assert!(again.is_ok());
    let refused_again: Result<LatexDoc, DocumentError> = Document::create_document(&mut guard);
    assert_eq!(refused_again.err(), Some(DocumentError::SingletonViolation));
}

#[test]
fn both_constructors_share_the_guard() {
    let mut guard = InstanceGuard::new();
    let first: Result<LatexDoc, DocumentError> = Document::new(&mut guard);
    assert!(first.is_ok());
    let second: Result<LatexDoc, DocumentError> = Document::create_document(&mut guard);
    assert_eq!(second.err(), Some(DocumentError::SingletonViolation));
}

#[test]
fn claim_is_granted_once() {
    let mut guard = InstanceGuard::new();
    assert_eq!(guard.claim(), Ok(()));
    assert_eq!(guard.claim(), Err(DocumentError::SingletonViolation));
    assert_eq!(guard.claim(), Err(DocumentError::SingletonViolation));
}

#[test]
fn guards_are_independent() {
    let mut one = InstanceGuard::new();
    let mut other = InstanceGuard::new();
    let first: Result<LatexDoc, DocumentError> = Document::new(&mut one);
    let second: Result<LatexDoc, DocumentError> = Document::new(&mut other);
    assert!(first.is_ok());
    assert!(second.is_ok());
}
