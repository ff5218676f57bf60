//! What the C-callable entry points decide, stated on references in place of
//! raw handles.
//!
//! A caller that holds a handle turns it into `Some` reference, or `None` for
//! a null handle, and forwards here. Results that a C signature cannot carry
//! are mapped to sentinel values: an absent byte becomes `0`.

use crate::buffer::{fresh_slots, pop_rest, pop_result, push_growth, Uint8Array};
use vstd::prelude::*;

verus! {

/// The byte that stands for `popped` across the boundary: the byte itself, or
/// `0` when there is none. A caller cannot tell a popped `0` from an empty
/// buffer and has to ask for the length first.
pub open spec fn byte_or_zero(popped: Option<u8>) -> u8 {
    match popped {
        Some(b) => b,
        None => 0,
    }
}

/// A new, empty buffer.
#[allow(non_snake_case)]
pub fn Uint8Array_new() -> (a: Uint8Array)
    ensures
        a.wf(),
        a.spec_len() == 0,
        a.spec_cap() == 0,
        a.storage() == Seq::<u8>::empty(),
        a@ == Seq::<u8>::empty(),
{
    Uint8Array::new()
}

/// The length of the buffer behind the handle, or `0` for no buffer.
#[allow(non_snake_case)]
pub fn Uint8Array_len(arr: Option<&Uint8Array>) -> (n: usize)
    requires
        arr matches Some(a) ==> a.spec_len() <= isize::MAX,
    ensures
        n == (match arr {
            Some(a) => a.spec_len(),
            None => 0,
        }),
{
    match arr {
        Some(a) => a.len(),
        None => 0,
    }
}

/// Appends `element` to the buffer, as `Uint8Array::push` does.
#[allow(non_snake_case)]
pub fn Uint8Array_push(arr: &mut Uint8Array, element: u8)
    requires
        old(arr).wf(),
        old(arr).spec_cap() + push_growth(old(arr).spec_len() as nat, old(arr).spec_cap() as nat)
            <= isize::MAX,
    ensures
        final(arr).wf(),
        final(arr)@ == old(arr)@.push(element),
        final(arr).spec_len() == old(arr).spec_len() + 1,
        final(arr).spec_cap() == old(arr).spec_cap() + push_growth(
            old(arr).spec_len() as nat,
            old(arr).spec_cap() as nat,
        ),
        final(arr).storage() == (old(arr).storage() + fresh_slots(
            push_growth(old(arr).spec_len() as nat, old(arr).spec_cap() as nat),
        )).update(old(arr).spec_len() as int, element),
{
    arr.push(element);
}

/// Removes the last byte of the buffer behind the handle and returns it.
/// Returns `0` for no buffer and for an empty one, which stays as it is.
#[allow(non_snake_case)]
pub fn Uint8Array_pop(arr: Option<&mut Uint8Array>) -> (b: u8)
    requires
        arr matches Some(a) ==> a.wf(),
    ensures
        arr is None ==> b == 0,
        arr matches Some(a) ==> {
            &&& final(a).wf()
            &&& b == byte_or_zero(pop_result(a@))
            &&& final(a)@ == pop_rest(a@)
            &&& final(a).spec_len() == pop_rest(a@).len()
            &&& final(a).spec_cap() == a.spec_cap()
            &&& final(a).storage() == a.storage()
        },
{
    match arr {
        Some(a) => match a.pop() {
            Some(n) => n,
            None => 0,
        },
        None => 0,
    }
}

} // verus!
