//! Buffer descriptors exchanged with the security service.
//!
//! The service describes a run of bytes by an address and a length. This
//! module holds the two descriptors the crate works with as plain values: the
//! address is kept as an integer, `0` standing for the null pointer, and is
//! never dereferenced here.
use vstd::prelude::*;

verus! {

/// A buffer that the security service allocated and that its holder must give
/// back exactly once.
///
/// The type is deliberately neither `Clone` nor `Copy`: whoever holds the value
/// holds the duty to release it, and moving the value moves the duty.
#[derive(Debug, PartialEq, Eq, Structural)]
pub struct Buf {
    /// Address of the first byte, `0` when the service never filled the buffer.
    pub value: usize,
    /// Number of bytes at `value`.
    pub length: usize,
}

impl Buf {
    /// The descriptor of a buffer that holds nothing and owes no release.
    pub open spec fn spec_empty() -> Buf {
        Buf { value: 0, length: 0 }
    }

    /// Whether the service never filled this buffer.
    pub open spec fn spec_is_null(&self) -> bool {
        self.value == 0
    }

    /// The buffer that remains after a release, and the descriptor that was
    /// handed to the service for it, if any was.
    pub open spec fn released(self) -> (Buf, Option<Buf>) {
        if self.value == 0 {
            (self, None)
        } else {
            (Buf::spec_empty(), Some(self))
        }
    }

    /// A buffer for the service to fill: null, of length zero.
    #[verifier::when_used_as_spec(spec_empty)]
    pub fn empty() -> (r: Buf)
        ensures
            r == Buf::spec_empty(),
            r.spec_is_null(),
    {
        Buf { value: 0, length: 0 }
    }

    /// Whether the service never filled this buffer.
    #[verifier::when_used_as_spec(spec_is_null)]
    pub fn is_null(&self) -> (r: bool)
        ensures
            r == (self.value == 0),
    {
        self.value == 0
    }

    /// Number of bytes the buffer describes.
    pub fn len(&self) -> (r: usize)
        ensures
            r == self.length,
    {
        self.length
    }

    /// Gives the buffer up. A filled buffer is returned as the descriptor to
    /// pass to the service's release operation, and `self` becomes the empty
    /// buffer; a null buffer is left as it is and nothing is to be released.
    pub fn release(&mut self) -> (r: Option<Buf>)
        ensures
            (*final(self), r) == old(self).released(),
            r is Some <==> !old(self).spec_is_null(),
            r is Some ==> final(self).spec_is_null(),
    {
        if self.value == 0 {
            None
        } else {
            let gone = Buf { value: self.value, length: self.length };
            self.value = 0;
            self.length = 0;
            Some(gone)
        }
    }
}

/// A buffer cannot be released twice: whatever it held, after one release
/// every further release finds nothing to hand to the service. The empty
/// buffer owes no release at all.
pub proof fn lemma_release_at_most_once(b: Buf)
    ensures
        b.released().0.released() == (b.released().0, None::<Buf>),
        Buf::spec_empty().released() == (Buf::spec_empty(), None::<Buf>),
{
}

/// A view of bytes that the caller owns, lent to the service for the length
/// of one call. Nothing is released when it goes away.
#[derive(Clone, Copy, Debug)]
pub struct BufRef<'a> {
    bytes: &'a [u8],
}

impl<'a> View for BufRef<'a> {
    type V = Seq<u8>;

    closed spec fn view(&self) -> Seq<u8> {
        self.bytes@
    }
}

impl<'a> BufRef<'a> {
    /// Describes the bytes of `s` without taking them over.
    pub fn new(s: &'a [u8]) -> (r: BufRef<'a>)
        ensures
            r@ == s@,
    {
        BufRef { bytes: s }
    }

    /// Number of bytes described.
    pub fn len(&self) -> (r: usize)
        ensures
            r == self@.len(),
    {
        self.bytes.len()
    }

    /// The bytes described.
    pub fn borrow(&self) -> (r: &'a [u8])
        ensures
            r@ == self@,
    {
        self.bytes
    }
}

} // verus!
