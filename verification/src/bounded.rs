//! Fixed-capacity vectors of the `heapless` crate, as chords and scales use them.
//!
//! Verus sees a `heapless::Vec` as opaque. Its contents are named by a spec
//! function per element type and capacity, and each operation the library
//! calls goes through a small trusted wrapper stating, over that name, what
//! the operation does.
use vstd::prelude::*;

verus! {

#[verifier::external_type_specification]
#[verifier::external_body]
#[verifier::reject_recursive_types(Item)]
pub struct ExHeaplessVec<Item, const CAP: usize>(heapless::Vec<Item, CAP>);

/// Maximum number of degrees in a chord.
pub const MAX_CHORD_SIZE: usize = 25;

/// Maximum number of steps in a scale.
pub const MAX_SCALE_STEPS: usize = 12;

/// The degrees a chord vector holds, in order.
pub uninterp spec fn chord_degrees(v: heapless::Vec<i16, 25>) -> Seq<i16>;

/// The steps a scale vector holds, in order.
pub uninterp spec fn scale_steps(v: heapless::Vec<u8, 12>) -> Seq<u8>;

/// `heapless::Vec::from_slice`: fails exactly when the slice does not fit
/// the capacity of 25, and otherwise holds the slice's elements in order.
#[verifier::external_body]
pub(crate) fn degrees_from_slice(s: &[i16]) -> (r: Result<heapless::Vec<i16, 25>, ()>)
    ensures
        r is Ok <==> s@.len() <= MAX_CHORD_SIZE,
        r matches Ok(v) ==> chord_degrees(v) == s@,
{
    heapless::Vec::from_slice(s)
}

/// `len` of a chord vector (through its slice): the number of elements it
/// holds, which never exceeds its capacity.
#[verifier::external_body]
pub(crate) fn degrees_len(v: &heapless::Vec<i16, 25>) -> (r: usize)
    ensures
        r == chord_degrees(*v).len(),
        r <= MAX_CHORD_SIZE,
{
    v.len()
}

/// Indexing a chord vector (through its slice) at a position it holds.
#[verifier::external_body]
pub(crate) fn degrees_get(v: &heapless::Vec<i16, 25>, i: usize) -> (r: i16)
    requires
        i < chord_degrees(*v).len(),
    ensures
        r == chord_degrees(*v)[i as int],
{
    v[i]
}

/// Assigning through a mutable index into a chord vector: replaces the one
/// element and keeps the others and the length.
#[verifier::external_body]
pub(crate) fn degrees_set(v: &mut heapless::Vec<i16, 25>, i: usize, value: i16)
    requires
        i < chord_degrees(*old(v)).len(),
    ensures
        chord_degrees(*final(v)) == chord_degrees(*old(v)).update(i as int, value),
{
    v[i] = value;
}

/// `Clone` of a chord vector: a new vector with the same elements in order.
#[verifier::external_body]
pub(crate) fn degrees_clone(v: &heapless::Vec<i16, 25>) -> (r: heapless::Vec<i16, 25>)
    ensures
        chord_degrees(r) == chord_degrees(*v),
{
    v.clone()
}

/// `heapless::Vec::from_slice` for scale steps: fails exactly when the
/// slice does not fit the capacity of 12.
#[verifier::external_body]
pub(crate) fn steps_from_slice(s: &[u8]) -> (r: Result<heapless::Vec<u8, 12>, ()>)
    ensures
        r is Ok <==> s@.len() <= MAX_SCALE_STEPS,
        r matches Ok(v) ==> scale_steps(v) == s@,
{
    heapless::Vec::from_slice(s)
}

/// `len` of a scale vector, never above its capacity.
#[verifier::external_body]
pub(crate) fn steps_len(v: &heapless::Vec<u8, 12>) -> (r: usize)
    ensures
        r == scale_steps(*v).len(),
        r <= MAX_SCALE_STEPS,
{
    v.len()
}

/// Indexing a scale vector at a position it holds.
#[verifier::external_body]
pub(crate) fn steps_get(v: &heapless::Vec<u8, 12>, i: usize) -> (r: u8)
    requires
        i < scale_steps(*v).len(),
    ensures
        r == scale_steps(*v)[i as int],
{
    v[i]
}

/// `Clone` of a scale vector: the same elements in order.
#[verifier::external_body]
pub(crate) fn steps_clone(v: &heapless::Vec<u8, 12>) -> (r: heapless::Vec<u8, 12>)
    ensures
        scale_steps(r) == scale_steps(*v),
{
    v.clone()
}

/// Whether two chord vectors hold the same degrees in the same order.
pub fn degrees_equal(a: &heapless::Vec<i16, 25>, b: &heapless::Vec<i16, 25>) -> (r: bool)
    ensures
        r == (chord_degrees(*a) == chord_degrees(*b)),
{
    let len = degrees_len(a);
    if len != degrees_len(b) {
        return false;
    }
    let mut i: usize = 0;
    while i < len
        invariant
            len == chord_degrees(*a).len(),
            len == chord_degrees(*b).len(),
            i <= len,
            forall|j: int| 0 <= j < i ==> chord_degrees(*a)[j] == chord_degrees(*b)[j],
        decreases len - i,
    {
        if degrees_get(a, i) != degrees_get(b, i) {
            return false;
        }
        i = i + 1;
    }
    assert(chord_degrees(*a) =~= chord_degrees(*b));
    true
}

/// Exchanges two degrees of a chord vector.
pub fn degrees_swap(v: &mut heapless::Vec<i16, 25>, i: usize, j: usize)
    requires
        i < chord_degrees(*old(v)).len(),
        j < chord_degrees(*old(v)).len(),
    ensures
        chord_degrees(*final(v)) == chord_degrees(*old(v)).update(i as int, chord_degrees(*old(v))[j as int]).update(
            j as int,
            chord_degrees(*old(v))[i as int],
        ),
{
    let a = degrees_get(v, i);
    let b = degrees_get(v, j);
    degrees_set(v, i, b);
    degrees_set(v, j, a);
}

} // verus!
