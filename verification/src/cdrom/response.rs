use vstd::prelude::*;

use arrayvec::ArrayVec;

use crate::bytes::{byte_items, bytes_clone, bytes_eq, bytes_from_slice};

verus! {

/// A response of the drive: the interrupt it raises and the bytes it puts
/// in the result FIFO.
pub enum ResponseType {
    INT3(ArrayVec<u8, 8>),
    INT2(ArrayVec<u8, 8>),
    INT5([u8; 2]),
    INT1,
}

/// A response as its interrupt number and result bytes (none for INT1,
/// whose result comes from the sector read).
pub open spec fn response_view(r: ResponseType) -> (u8, Seq<u8>) {
    match r {
        ResponseType::INT3(v) => (3, byte_items(v)),
        ResponseType::INT2(v) => (2, byte_items(v)),
        ResponseType::INT5(a) => (5, a@),
        ResponseType::INT1 => (1, Seq::<u8>::empty()),
    }
}

/// The interrupt number of a response.
pub fn response_code(r: &ResponseType) -> (c: u8)
    ensures
        c == response_view(*r).0,
{
    match r {
        ResponseType::INT1 => 1,
        ResponseType::INT2(_) => 2,
        ResponseType::INT3(_) => 3,
        ResponseType::INT5(_) => 5,
    }
}

/// A copy of a response.
pub fn clone_response(r: &ResponseType) -> (c: ResponseType)
    ensures
        response_view(c) == response_view(*r),
{
    match r {
        ResponseType::INT1 => ResponseType::INT1,
        ResponseType::INT2(v) => ResponseType::INT2(bytes_clone(v)),
        ResponseType::INT3(v) => ResponseType::INT3(bytes_clone(v)),
        ResponseType::INT5(a) => ResponseType::INT5(*a),
    }
}

/// Whether two responses are the same: the same interrupt and bytes.
pub fn same_response(a: &ResponseType, b: &ResponseType) -> (r: bool)
    ensures
        r == (response_view(*a) == response_view(*b)),
{
    match (a, b) {
        (ResponseType::INT1, ResponseType::INT1) => true,
        (ResponseType::INT2(x), ResponseType::INT2(y)) => bytes_eq(x, y),
        (ResponseType::INT3(x), ResponseType::INT3(y)) => bytes_eq(x, y),
        (ResponseType::INT5(x), ResponseType::INT5(y)) => {
            let eq = x[0] == y[0] && x[1] == y[1];
            proof {
                if eq {
                    assert(x@ =~= y@);
                }
            }
            eq
        },
        _ => false,
    }
}

/// The responses held by a two-entry `ArrayVec`, in order, each with its
/// delay in cycles.
pub uninterp spec fn response_items(v: ArrayVec<(ResponseType, u64), 2>) -> Seq<(ResponseType, u64)>;

/// `ArrayVec::default`: no responses.
#[verifier::external_body]
fn responses_default() -> (v: ArrayVec<(ResponseType, u64), 2>)
    ensures
        response_items(v) == Seq::<(ResponseType, u64)>::empty(),
{
    ArrayVec::default()
}

/// `ArrayVec::len`: the number of responses held, at most 2.
#[verifier::external_body]
pub(crate) fn responses_len(v: &ArrayVec<(ResponseType, u64), 2>) -> (n: usize)
    ensures
        n == response_items(*v).len(),
        n <= 2,
{
    v.len()
}

/// `ArrayVec::push`: appends a response (the precondition rules out the
/// panic on a full vector).
#[verifier::external_body]
fn responses_push(v: &mut ArrayVec<(ResponseType, u64), 2>, r: (ResponseType, u64))
    requires
        response_items(*old(v)).len() < 2,
    ensures
        response_items(*final(v)) == response_items(*old(v)).push(r),
{
    v.push(r)
}

/// `ArrayVec::pop_at(0)`: removes and returns the first response.
#[verifier::external_body]
pub(crate) fn responses_pop_front(v: &mut ArrayVec<(ResponseType, u64), 2>) -> (r: Option<(ResponseType, u64)>)
    ensures
        response_items(*old(v)).len() == 0 ==> r is None && response_items(*final(v)) == response_items(*old(v)),
        response_items(*old(v)).len() > 0 ==> r == Some(response_items(*old(v))[0]) && response_items(
            *final(v),
        ) == response_items(*old(v)).drop_first(),
{
    v.pop_at(0)
}

/// The responses a command produces, with their delays.
pub struct CommandResponse {
    pub responses: ArrayVec<(ResponseType, u64), 2>,
}

impl CommandResponse {
    pub open spec fn items(&self) -> Seq<(ResponseType, u64)> {
        response_items(self.responses)
    }

    /// The responses as plain values: interrupt number, result bytes and
    /// delay.
    pub open spec fn views(&self) -> Seq<((u8, Seq<u8>), u64)> {
        self.items().map_values(|p: (ResponseType, u64)| (response_view(p.0), p.1))
    }

    pub fn new() -> (r: Self)
        ensures
            r.items() == Seq::<(ResponseType, u64)>::empty(),
            r.views() == Seq::<((u8, Seq<u8>), u64)>::empty(),
    {
        let r = CommandResponse { responses: responses_default() };
        assert(r.views() =~= Seq::<((u8, Seq<u8>), u64)>::empty());
        r
    }

    /// Adds an INT3 response with result bytes `data` after `delay` cycles.
    pub fn int3(self, data: &[u8], delay: u64) -> (r: Self)
        requires
            data@.len() <= 8,
            self.items().len() < 2,
        ensures
            r.items().len() == self.items().len() + 1,
            r.views() == self.views().push(((3u8, data@), delay)),
    {
        let mut s = self;
        let arr = bytes_from_slice(data);
        responses_push(&mut s.responses, (ResponseType::INT3(arr), delay));
        proof {
            assert(s.views() =~= self.views().push(((3u8, data@), delay)));
        }
        s
    }

    /// Adds an INT2 response with result bytes `data` after `delay` cycles.
    pub fn int2(self, data: &[u8], delay: u64) -> (r: Self)
        requires
            data@.len() <= 8,
            self.items().len() < 2,
        ensures
            r.items().len() == self.items().len() + 1,
            r.views() == self.views().push(((2u8, data@), delay)),
    {
        let mut s = self;
        let arr = bytes_from_slice(data);
        responses_push(&mut s.responses, (ResponseType::INT2(arr), delay));
        proof {
            assert(s.views() =~= self.views().push(((2u8, data@), delay)));
        }
        s
    }

    /// Adds an INT5 (error) response with two result bytes.
    pub fn int5(self, data: [u8; 2], delay: u64) -> (r: Self)
        requires
            self.items().len() < 2,
        ensures
            r.items() == self.items().push((ResponseType::INT5(data), delay)),
            r.views() == self.views().push(((5u8, data@), delay)),
    {
        let mut s = self;
        responses_push(&mut s.responses, (ResponseType::INT5(data), delay));
        proof {
            assert(s.views() =~= self.views().push(((5u8, data@), delay)));
        }
        s
    }

    /// Adds an INT1 response (a sector is ready).
    pub fn int1(self, delay: u64) -> (r: Self)
        requires
            self.items().len() < 2,
        ensures
            r.items() == self.items().push((ResponseType::INT1, delay)),
            r.views() == self.views().push(((1u8, Seq::<u8>::empty()), delay)),
    {
        let mut s = self;
        responses_push(&mut s.responses, (ResponseType::INT1, delay));
        proof {
            assert(s.views() =~= self.views().push(((1u8, Seq::<u8>::empty()), delay)));
        }
        s
    }
}

} // verus!
