//! The guard that allows one live document at a time.

use crate::document::{Document, DocumentError};
use vstd::prelude::*;

verus! {

/// The place of the one document that may be live. The caller owns the guard and hands it
/// to whatever creates a document.
#[derive(Debug)]
pub struct InstanceGuard {
    live: bool,
}

/// What a request for a document gives, by whether a document is live already.
pub open spec fn request(occupied: bool) -> Result<(), DocumentError> {
    if occupied {
        Err(DocumentError::SingletonViolation)
    } else {
        Ok(())
    }
}

impl InstanceGuard {
    /// Whether a document is live.
    pub closed spec fn occupied(&self) -> bool {
        self.live
    }

    /// A guard under which no document is live.
    pub fn new() -> (guard: Self)
        ensures
            !guard.occupied(),
    {
        InstanceGuard { live: false }
    }

    /// Asks for the place of the one live document. The request is granted if no document
    /// is live and refused otherwise; either way a document is live afterwards.
    pub fn claim(&mut self) -> (result: Result<(), DocumentError>)
        ensures
            result == request(old(self).occupied()),
            final(self).occupied(),
    {
        if self.live {
            Err(DocumentError::SingletonViolation)
        } else {
            self.live = true;
            Ok(())
        }
    }

    /// Disposes of a document: afterwards none is live. The guard does not know which
    /// document it was claimed for; it takes the caller's word that this is the one.
    pub fn release<D: Document>(&mut self, document: D)
        ensures
            !final(self).occupied(),
    {
        let _ = document;
        self.live = false;
    }
}

/// While a document is live, a request for another is refused; once the live document has
/// been released, a request is granted again.
pub proof fn one_document_at_a_time(claimed: InstanceGuard, released: InstanceGuard)
    requires
        claimed.occupied(),
        !released.occupied(),
    ensures
        request(claimed.occupied()) == Err::<(), DocumentError>(
            DocumentError::SingletonViolation,
        ),
        request(released.occupied()) == Ok::<(), DocumentError>(()),
{
}

} // verus!
