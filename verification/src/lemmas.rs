//! Laws that relate the operations of the buffer to one another, stated over
//! the valid bytes as the operations' own contracts state them.

use crate::buffer::{pop_rest, pop_result};
use vstd::prelude::*;

verus! {

/// The valid bytes of a buffer that held `start` once every byte of `bytes`
/// has been pushed onto it, first to last.
pub open spec fn push_each(start: Seq<u8>, bytes: Seq<u8>) -> Seq<u8>
    decreases bytes.len(),
{
    if bytes.len() == 0 {
        start
    } else {
        push_each(start, bytes.drop_last()).push(bytes.last())
    }
}

/// Pushing bytes one after another appends them in the order in which they
/// were pushed: the valid bytes are then what one `write` of all of them
/// leaves.
pub proof fn lemma_push_each_appends(start: Seq<u8>, bytes: Seq<u8>)
    ensures
        push_each(start, bytes) == start + bytes,
    decreases bytes.len(),
{
    if bytes.len() == 0 {
        assert(start + bytes =~= start);
    } else {
        lemma_push_each_appends(start, bytes.drop_last());
        assert((start + bytes.drop_last()).push(bytes.last()) =~= start + bytes);
    }
}

/// After any number of pushes onto an empty buffer the length is the number
/// of pushes, and the byte at each index below it is the one pushed at that
/// turn.
pub proof fn lemma_pushes_onto_empty(bytes: Seq<u8>)
    ensures
        push_each(Seq::empty(), bytes).len() == bytes.len(),
        forall|i: int| 0 <= i < bytes.len() ==> push_each(Seq::empty(), bytes)[i] == bytes[i],
{
    lemma_push_each_appends(Seq::empty(), bytes);
    assert(Seq::<u8>::empty() + bytes =~= bytes);
}

/// A push followed by a pop hands back the pushed byte and leaves the valid
/// bytes, and so the length, as they were before the push.
pub proof fn lemma_push_then_pop(bytes: Seq<u8>, val: u8)
    ensures
        pop_result(bytes.push(val)) == Some(val),
        pop_rest(bytes.push(val)) == bytes,
        pop_rest(bytes.push(val)).len() == bytes.len(),
{
    assert(bytes.push(val).drop_last() =~= bytes);
}

/// An insert at any index up to the length, followed by a remove at the same
/// index, leaves the valid bytes as they were before the insert.
pub proof fn lemma_insert_then_remove(bytes: Seq<u8>, index: int, element: u8)
    requires
        0 <= index <= bytes.len(),
    ensures
        bytes.insert(index, element).len() == bytes.len() + 1,
        bytes.insert(index, element)[index] == element,
        bytes.insert(index, element).remove(index) == bytes,
{
    assert(bytes.insert(index, element).remove(index) =~= bytes);
}

} // verus!
