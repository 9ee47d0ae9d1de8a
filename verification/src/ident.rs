//! Content identifiers: opaque byte strings handed back by the content
//! store. Two snapshots with identical contents yield equal identifiers, so
//! equality of identifiers is the dedup test of the whole pipeline.

use vstd::prelude::*;

verus! {

/// Compares two byte vectors for equality of their contents.
pub fn bytes_equal(a: &Vec<u8>, b: &Vec<u8>) -> (r: bool)
    ensures
        r <==> a@ == b@,
{
    if a.len() != b.len() {
        assert(a@.len() != b@.len());
        return false;
    }
    let n = a.len();
    let mut i: usize = 0;
    while i < n
        invariant
            n == a@.len(),
            n == b@.len(),
            i <= n,
            forall|j: int| 0 <= j < i ==> a@[j] == b@[j],
        decreases n - i,
    {
        if a[i] != b[i] {
            return false;
        }
        i += 1;
    }
    assert(a@ =~= b@);
    true
}

/// An opaque identifier of a directory snapshot's contents, as produced by
/// the content store. Its view is the sequence of bytes of its text.
pub struct ContentIdentifier {
    bytes: Vec<u8>,
}

impl View for ContentIdentifier {
    type V = Seq<u8>;

    closed spec fn view(&self) -> Seq<u8> {
        self.bytes@
    }
}

impl Clone for ContentIdentifier {
    fn clone(&self) -> (r: Self)
        ensures
            r@ == self@,
    {
        ContentIdentifier { bytes: clone_bytes(&self.bytes) }
    }
}

impl ContentIdentifier {
    /// Wraps raw bytes as an identifier.
    pub fn from_bytes(bytes: Vec<u8>) -> (r: Self)
        ensures
            r@ == bytes@,
    {
        ContentIdentifier { bytes }
    }

    /// The identifier's text, as bytes.
    pub fn as_bytes(&self) -> (r: &Vec<u8>)
        ensures
            r@ == self@,
    {
        &self.bytes
    }

    /// Whether two identifiers name the same snapshot contents.
    pub fn same_as(&self, other: &ContentIdentifier) -> (r: bool)
        ensures
            r <==> self@ == other@,
    {
        bytes_equal(&self.bytes, &other.bytes)
    }
}

/// Copies a byte vector element by element.
fn clone_bytes(a: &Vec<u8>) -> (r: Vec<u8>)
    ensures
        r@ == a@,
{
    let mut r: Vec<u8> = Vec::new();
    let n = a.len();
    let mut i: usize = 0;
    while i < n
        invariant
            n == a@.len(),
            i <= n,
            r@ == a@.take(i as int),
        decreases n - i,
    {
        r.push(a[i]);
        assert(r@ =~= a@.take(i + 1 as int));
        i += 1;
    }
    assert(a@.take(n as int) =~= a@);
    r
}

} // verus!
