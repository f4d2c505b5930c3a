use vstd::prelude::*;

use arrayvec::ArrayVec;

verus! {

#[verifier::external_type_specification]
#[verifier::external_body]
#[verifier::reject_recursive_types(T)]
pub struct ExArrayVec<T, const CAP: usize>(ArrayVec<T, CAP>);

/// The bytes that an eight-byte `ArrayVec` holds, in order.
pub uninterp spec fn byte_items(v: ArrayVec<u8, 8>) -> Seq<u8>;

/// `ArrayVec::default` (which is `ArrayVec::new`): an empty vector.
#[verifier::external_body]
pub(crate) fn bytes_default() -> (v: ArrayVec<u8, 8>)
    ensures
        byte_items(v) == Seq::<u8>::empty(),
{
    ArrayVec::default()
}

/// `ArrayVec::len`: the number of bytes held; the vector never holds more
/// than its capacity of 8.
#[verifier::external_body]
pub(crate) fn bytes_len(v: &ArrayVec<u8, 8>) -> (n: usize)
    ensures
        n == byte_items(*v).len(),
        n <= 8,
{
    v.len()
}

/// `ArrayVec::push`: appends a byte (it panics on a full vector, which the
/// precondition rules out).
#[verifier::external_body]
pub(crate) fn bytes_push(v: &mut ArrayVec<u8, 8>, b: u8)
    requires
        byte_items(*old(v)).len() < 8,
    ensures
        byte_items(*final(v)) == byte_items(*old(v)).push(b),
{
    v.push(b)
}

/// `ArrayVec::pop_at(0)`: removes and returns the first byte, `None` when
/// empty.
#[verifier::external_body]
pub(crate) fn bytes_pop_front(v: &mut ArrayVec<u8, 8>) -> (r: Option<u8>)
    ensures
        byte_items(*old(v)).len() == 0 ==> r is None && byte_items(*final(v)) == byte_items(*old(v)),
        byte_items(*old(v)).len() > 0 ==> r == Some(byte_items(*old(v))[0]) && byte_items(*final(v))
            == byte_items(*old(v)).drop_first(),
{
    v.pop_at(0)
}

/// `ArrayVec::last_mut`: overwrites the last byte of a non-empty vector.
#[verifier::external_body]
pub(crate) fn bytes_set_last(v: &mut ArrayVec<u8, 8>, b: u8)
    requires
        byte_items(*old(v)).len() > 0,
    ensures
        byte_items(*final(v)) == byte_items(*old(v)).update(byte_items(*old(v)).len() - 1, b),
{
    *v.last_mut().unwrap() = b;
}

/// `ArrayVec::from_iter`: a vector holding `data` (it panics beyond the
/// capacity, which the precondition rules out).
#[verifier::external_body]
pub(crate) fn bytes_from_slice(data: &[u8]) -> (v: ArrayVec<u8, 8>)
    requires
        data@.len() <= 8,
    ensures
        byte_items(v) == data@,
{
    ArrayVec::from_iter(data.iter().copied())
}

/// `ArrayVec::clone`: a vector holding the same bytes.
#[verifier::external_body]
pub(crate) fn bytes_clone(v: &ArrayVec<u8, 8>) -> (r: ArrayVec<u8, 8>)
    ensures
        byte_items(r) == byte_items(*v),
{
    v.clone()
}

/// `ArrayVec::eq`: whether two vectors hold the same bytes.
#[verifier::external_body]
pub(crate) fn bytes_eq(a: &ArrayVec<u8, 8>, b: &ArrayVec<u8, 8>) -> (r: bool)
    ensures
        r == (byte_items(*a) == byte_items(*b)),
{
    a == b
}

/// `ArrayVec::index`: the byte at `i`.
#[verifier::external_body]
pub(crate) fn bytes_at(v: &ArrayVec<u8, 8>, i: usize) -> (r: u8)
    requires
        i < byte_items(*v).len(),
    ensures
        r == byte_items(*v)[i as int],
{
    v[i]
}

/// The bytes that a sixteen-byte `ArrayVec` holds, in order.
pub uninterp spec fn param_items(v: ArrayVec<u8, 16>) -> Seq<u8>;

/// `ArrayVec::default`: an empty vector.
#[verifier::external_body]
pub(crate) fn params_default() -> (v: ArrayVec<u8, 16>)
    ensures
        param_items(v) == Seq::<u8>::empty(),
{
    ArrayVec::default()
}

/// `ArrayVec::len`: the number of bytes held, at most the capacity 16.
#[verifier::external_body]
pub(crate) fn params_len(v: &ArrayVec<u8, 16>) -> (n: usize)
    ensures
        n == param_items(*v).len(),
        n <= 16,
{
    v.len()
}

/// `ArrayVec::push`: appends a byte (the precondition rules out the panic
/// on a full vector).
#[verifier::external_body]
pub(crate) fn params_push(v: &mut ArrayVec<u8, 16>, b: u8)
    requires
        param_items(*old(v)).len() < 16,
    ensures
        param_items(*final(v)) == param_items(*old(v)).push(b),
{
    v.push(b)
}

/// `ArrayVec::index`: the byte at `i`.
#[verifier::external_body]
pub(crate) fn params_at(v: &ArrayVec<u8, 16>, i: usize) -> (r: u8)
    requires
        i < param_items(*v).len(),
    ensures
        r == param_items(*v)[i as int],
{
    v[i]
}

/// `ArrayVec::clear`: removes all bytes.
#[verifier::external_body]
pub(crate) fn params_clear(v: &mut ArrayVec<u8, 16>)
    ensures
        param_items(*final(v)) == Seq::<u8>::empty(),
{
    v.clear()
}

/// `Vec::extend` with an `ArrayVec`'s bytes: a `Vec` of the same bytes.
#[verifier::external_body]
pub(crate) fn bytes_to_vec(v: ArrayVec<u8, 8>) -> (r: Vec<u8>)
    ensures
        r@ == byte_items(v),
{
    let mut r = Vec::new();
    r.extend(v);
    r
}

/// The words that a sixteen-word `ArrayVec` holds, in order.
pub uninterp spec fn word_items(v: ArrayVec<u32, 16>) -> Seq<u32>;

/// `ArrayVec::new`: an empty vector.
#[verifier::external_body]
pub(crate) fn words_new() -> (v: ArrayVec<u32, 16>)
    ensures
        word_items(v) == Seq::<u32>::empty(),
{
    ArrayVec::new()
}

/// `ArrayVec::len`: the number of words held, at most the capacity 16.
#[verifier::external_body]
pub(crate) fn words_len(v: &ArrayVec<u32, 16>) -> (n: usize)
    ensures
        n == word_items(*v).len(),
        n <= 16,
{
    v.len()
}

/// `ArrayVec::push`: appends a word (the precondition rules out the panic
/// on a full vector).
#[verifier::external_body]
pub(crate) fn words_push(v: &mut ArrayVec<u32, 16>, w: u32)
    requires
        word_items(*old(v)).len() < 16,
    ensures
        word_items(*final(v)) == word_items(*old(v)).push(w),
{
    v.push(w)
}

/// `<[u32]>::to_vec` on the vector's slice: a `Vec` of the same words.
#[verifier::external_body]
pub(crate) fn words_to_vec(v: &ArrayVec<u32, 16>) -> (r: Vec<u32>)
    ensures
        r@ == word_items(*v),
{
    v.to_vec()
}

} // verus!
