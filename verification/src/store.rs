//! The verified half of the content store client. The external store (an
//! `ipfs add -r`-style invocation) emits a line-oriented listing on its
//! standard output; the content identifier of the top-level directory is the
//! second-to-last whitespace-delimited token of that output. The surrounding
//! binary captures the raw output bytes and hands them here; this module
//! extracts the identifier, treating any output with fewer than two tokens
//! as a store failure rather than crashing.

use vstd::prelude::*;

use crate::fault::Fault;
use crate::ident::ContentIdentifier;

verus! {

/// Whether `b` is an ASCII whitespace byte (space, tab, line feed, carriage
/// return, or form feed): the delimiters between tokens of the store output.
pub open spec fn is_space(b: u8) -> bool {
    b == 32 || b == 9 || b == 10 || b == 13 || b == 12
}

/// The state of a left-to-right scan of `s`: the tokens completed so far,
/// and the partial token that the scan stands inside (empty if it stands on
/// whitespace or at the start).
pub open spec fn scan(s: Seq<u8>) -> (Seq<Seq<u8>>, Seq<u8>)
    decreases s.len(),
{
    if s.len() == 0 {
        (Seq::empty(), Seq::empty())
    } else {
        let done = scan(s.drop_last()).0;
        let cur = scan(s.drop_last()).1;
        let b = s.last();
        if is_space(b) {
            if cur.len() > 0 {
                (done.push(cur), Seq::empty())
            } else {
                (done, cur)
            }
        } else {
            (done, cur.push(b))
        }
    }
}

/// The whitespace-delimited tokens of `s`, in order. Each token is a maximal
/// run of non-whitespace bytes.
pub open spec fn tokens(s: Seq<u8>) -> Seq<Seq<u8>> {
    let done = scan(s).0;
    let cur = scan(s).1;
    if cur.len() > 0 {
        done.push(cur)
    } else {
        done
    }
}

/// Whether `b` is an ASCII whitespace byte.
fn is_space_byte(b: u8) -> (r: bool)
    ensures
        r == is_space(b),
{
    b == 32 || b == 9 || b == 10 || b == 13 || b == 12
}

/// Extracts the content identifier from the store's raw output: its
/// second-to-last whitespace-delimited token. Output with fewer than two
/// tokens carries no identifier and is a store failure.
pub fn parse_store_output(out: &Vec<u8>) -> (r: Result<ContentIdentifier, Fault>)
    ensures
        tokens(out@).len() >= 2 ==> (r matches Ok(id) && id@ == tokens(out@)[tokens(
            out@,
        ).len() - 2]),
        tokens(out@).len() < 2 ==> r == Err::<ContentIdentifier, Fault>(Fault::StoreError),
{
    let n = out.len();
    let mut done: Vec<Vec<u8>> = Vec::new();
    let mut cur: Vec<u8> = Vec::new();
    let mut i: usize = 0;
    while i < n
        invariant
            n == out@.len(),
            i <= n,
            done@.len() == scan(out@.take(i as int)).0.len(),
            forall|j: int| 0 <= j < done@.len() ==> done@[j]@ == scan(out@.take(i as int)).0[j],
            cur@ == scan(out@.take(i as int)).1,
        decreases n - i,
    {
        let ghost pre = out@.take(i as int);
        let ghost post = out@.take(i + 1 as int);
        proof {
            assert(post.drop_last() =~= pre);
            assert(post.last() == out@[i as int]);
        }
        let b = out[i];
        if is_space_byte(b) {
            if cur.len() > 0 {
                done.push(cur);
                cur = Vec::new();
            }
        } else {
            cur.push(b);
        }
        i += 1;
    }
    proof {
        assert(out@.take(n as int) =~= out@);
    }
    if cur.len() > 0 {
        done.push(cur);
    }
    assert(done@.len() == tokens(out@).len());
    assert(forall|j: int| 0 <= j < done@.len() ==> done@[j]@ == tokens(out@)[j]);
    if done.len() >= 2 {
        let idx = done.len() - 2;
        let tok = done.remove(idx);
        Ok(ContentIdentifier::from_bytes(tok))
    } else {
        Err(Fault::StoreError)
    }
}

} // verus!
