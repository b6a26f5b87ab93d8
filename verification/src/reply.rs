//! Reply channel shapes.
//!
//! Every handler returns one future; the actor task owns and polls it.
use vstd::prelude::*;

mod private;

verus! {

/// Selects a message's reply channel shape.
///
/// Custom implementations use [`SingleKind`] or [`StreamKind`].
pub trait ReplyKind: private::Sealed {

}

/// A message returning one value.
pub struct SingleKind;

/// A message returning items and one final value.
pub struct StreamKind;

impl private::Sealed for SingleKind {

}

impl ReplyKind for SingleKind {

}

impl private::Sealed for StreamKind {

}

impl ReplyKind for StreamKind {

}

} // verus!
