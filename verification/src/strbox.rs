//! The single-owner box that carries engine-produced text back across the
//! boundary.
//!
//! A box starts live and stays valid until its owner performs the one
//! matching release; after release its contents are gone and every reading
//! operation either is ruled out by contract or reports the box as dead.

use vstd::prelude::*;

verus! {

/// A single-owner container for output text.
pub struct Str {
    bytes: Vec<u8>,
    live: bool,
}

impl View for Str {
    type V = Seq<u8>;

    /// The text the box carries.
    closed spec fn view(&self) -> Seq<u8> {
        self.bytes@
    }
}

impl Str {
    /// The box has not been released and its contents may still be read.
    pub closed spec fn is_live(&self) -> bool {
        self.live
    }

    /// Takes exclusive ownership of `bytes` and wraps it for the caller.
    pub fn from_bytes(bytes: Vec<u8>) -> (s: Str)
        ensures
            s.is_live(),
            s@ == bytes@,
    {
        Str { bytes, live: true }
    }

    /// The number of bytes the box carries.
    pub fn len(&self) -> (n: usize)
        requires
            self.is_live(),
        ensures
            n == self@.len(),
    {
        self.bytes.len()
    }

    /// Borrows the carried text; only a live box may be read.
    pub fn as_bytes(&self) -> (r: &[u8])
        requires
            self.is_live(),
        ensures
            r@ == self@,
    {
        self.bytes.as_slice()
    }

    /// Borrows the carried text if the box is still live, and reports a dead
    /// box as such: after a release nothing is handed out any more.
    pub fn bytes_if_live(&self) -> (r: Option<&[u8]>)
        ensures
            r is Some <==> self.is_live(),
            r matches Some(b) ==> b@ == self@,
    {
        if self.live {
            Some(self.bytes.as_slice())
        } else {
            None
        }
    }

    /// Releases the box: the one release the owner owes it.
    ///
    /// Afterwards the box is dead and carries nothing; no released box is
    /// ever observable as valid data again.
    pub fn release(&mut self)
        ensures
            !final(self).is_live(),
            final(self)@.len() == 0,
    {
        self.bytes.clear();
        self.live = false;
    }
}

} // verus!
