//! The publish record: the most recently published content identifier, or
//! none before the first successful publish. It has a single writer, the
//! orchestrator, and is read before each publish decision to deduplicate
//! redundant publishes. It lives for the process lifetime and is not
//! persisted: after a restart the first trigger republishes even an
//! unchanged tree.

use vstd::prelude::*;

use crate::ident::ContentIdentifier;

verus! {

/// Holds the last successfully published identifier. Its view is that
/// identifier's byte sequence, or `None` before the first publish.
pub struct PublishRecord {
    last: Option<ContentIdentifier>,
}

impl View for PublishRecord {
    type V = Option<Seq<u8>>;

    closed spec fn view(&self) -> Option<Seq<u8>> {
        match self.last {
            Some(id) => Some(id@),
            None => None,
        }
    }
}

impl PublishRecord {
    /// A fresh record: nothing has been published yet.
    pub fn new() -> (r: Self)
        ensures
            r@ == None::<Seq<u8>>,
    {
        PublishRecord { last: None }
    }

    /// The last published identifier, if any.
    pub fn current(&self) -> (r: Option<&ContentIdentifier>)
        ensures
            match r {
                Some(id) => self@ == Some(id@),
                None => self@ == None::<Seq<u8>>,
            },
    {
        match &self.last {
            Some(id) => Some(id),
            None => None,
        }
    }

    /// Records a successful publish of `id`.
    pub fn update(&mut self, id: ContentIdentifier)
        ensures
            final(self)@ == Some(id@),
    {
        self.last = Some(id);
    }
}

} // verus!
