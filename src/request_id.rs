use vstd::prelude::*;

verus! {

/// `a + b` in `i64`, wrapping around at the ends of the range.
pub open spec fn add_wrapping(a: i64, b: i64) -> i64 {
    if a + b > i64::MAX {
        (a + b - 0x1_0000_0000_0000_0000) as i64
    } else if a + b < i64::MIN {
        (a + b + 0x1_0000_0000_0000_0000) as i64
    } else {
        (a + b) as i64
    }
}

/// The request id that follows `id`: one more, and `i64::MIN` after `i64::MAX`.
pub open spec fn next_request_id(id: i64) -> i64 {
    if id == i64::MAX {
        i64::MIN
    } else {
        (id + 1) as i64
    }
}

/// Counter of the request ids of one connection; it holds the last id issued.
#[derive(Copy, Clone, PartialEq, Eq, Debug)]
pub struct RequestId {
    last: i64,
}

impl View for RequestId {
    type V = i64;

    closed spec fn view(&self) -> i64 {
        self.last
    }
}

impl RequestId {
    /// A fresh counter: no id issued yet, so the first one will be 1.
    pub fn new() -> (r: RequestId)
        ensures
            r@ == 0,
    {
        RequestId { last: 0 }
    }

    /// Issues the next id.
    pub fn next(&mut self) -> (r: i64)
        ensures
            r == next_request_id(old(self)@),
            final(self)@ == r,
    {
        self.advance(1)
    }

    /// Moves the counter on by `num`, wrapping, and returns the new last id.
    pub fn advance(&mut self, num: i64) -> (r: i64)
        ensures
            r == add_wrapping(old(self)@, num),
            final(self)@ == r,
    {
        self.last = self.last.wrapping_add(num);
        self.last
    }
}

} // verus!
