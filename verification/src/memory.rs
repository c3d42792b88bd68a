//! Byte buffers that cross the boundary.

use vstd::prelude::*;

verus! {

/// A read-only view of bytes that the caller owns, valid for one call.
///
/// A view is either missing (the caller passed nothing) or present, and a
/// present view may hold zero bytes: the two are told apart.
#[derive(Clone, Copy, Debug)]
pub struct ByteSliceView<'a> {
    data: Option<&'a [u8]>,
}

impl<'a> ByteSliceView<'a> {
    /// `None` for a missing view, else the bytes that the view shows.
    pub closed spec fn view(&self) -> Option<Seq<u8>> {
        match self.data {
            Some(s) => Some(s@),
            None => None,
        }
    }

    /// A view of `source`; missing when `source` is `None`.
    pub fn new(source: Option<&'a [u8]>) -> (v: Self)
        ensures
            v@ == (match source {
                Some(s) => Some(s@),
                None => None::<Seq<u8>>,
            }),
    {
        ByteSliceView { data: source }
    }

    /// The bytes of a present view, `None` for a missing one.
    pub fn read(&self) -> (r: Option<&'a [u8]>)
        ensures
            self@ == (match r {
                Some(s) => Some(s@),
                None => None::<Seq<u8>>,
            }),
    {
        self.data
    }
}

/// Bytes whose ownership crosses the boundary.
///
/// A buffer of length zero is the "no data" value: it stands for an absent
/// argument on the way in and for "nothing returned" on the way out.
#[derive(Debug)]
pub struct Buffer {
    data: Vec<u8>,
}

impl View for Buffer {
    type V = Seq<u8>;

    closed spec fn view(&self) -> Seq<u8> {
        self.data@
    }
}

impl Default for Buffer {
    /// The empty buffer.
    fn default() -> (b: Self)
        ensures
            b@ == Seq::<u8>::empty(),
    {
        Buffer { data: Vec::new() }
    }
}

impl Buffer {
    /// Hands `v` over to a buffer, byte for byte.
    pub fn from_vec(v: Vec<u8>) -> (b: Self)
        ensures
            b@ == v@,
    {
        Buffer { data: v }
    }

    /// The number of bytes held.
    pub fn len(&self) -> (n: usize)
        ensures
            n == self@.len(),
    {
        self.data.len()
    }

    /// Whether the buffer is the "no data" value.
    pub fn is_empty(&self) -> (e: bool)
        ensures
            e == (self@.len() == 0),
    {
        self.data.len() == 0
    }

    /// The bytes of a non-empty buffer; `None` for the empty one.
    pub fn read(&self) -> (r: Option<&[u8]>)
        ensures
            self@.len() == 0 ==> r is None,
            self@.len() > 0 ==> (r matches Some(s) && s@ == self@),
    {
        if self.data.len() == 0 {
            None
        } else {
            Some(self.data.as_slice())
        }
    }

    /// Takes the bytes out and ends the buffer's life.
    pub fn consume(self) -> (v: Vec<u8>)
        ensures
            v@ == self@,
    {
        self.data
    }
}

} // verus!
