//! A safe, verified boundary layer for a CommonMark rendering engine.
//!
//! Callers hand the library raw byte buffers and an options aggregate; the
//! library validates text, mutates one option field at a time under an exact
//! contract, and hands rendered output back in a single-owner box.

pub mod engine;
pub mod options;
pub mod setters;
pub mod strbox;
pub mod utf8;

use vstd::prelude::*;

verus! {

/// Moves a value to the heap, producing the exclusively owned handle under
/// which it crosses the boundary.
pub fn to_ptr_mut<T>(val: T) -> (r: Box<T>)
    ensures
        *r == val,
{
    Box::new(val)
}

} // verus!
