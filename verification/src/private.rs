//! Keeps [`Ext`](crate::Ext) and
//! [`InterruptHandler`](crate::InterruptHandler) closed to this crate.
use vstd::prelude::*;

verus! {

/// Implemented for the types that [`Ext`](crate::Ext) extends, and for no
/// other.
pub trait Sealed {

}

impl Sealed for serenity::Client {

}

/// Implemented for the two bridges, and for no other type: only they are
/// handed the evidence that lets a handler block its thread.
pub trait SealedHandler {

}

} // verus!
