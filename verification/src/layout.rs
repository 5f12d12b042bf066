use vstd::prelude::*;

verus! {

/// An opaque, OS-defined identifier of a keyboard input layout.
///
/// The core never interprets the bits of a layout handle: it only compares
/// identifiers for equality and hands them back to the process when it asks
/// the OS to activate a specific layout.
#[derive(Clone, Copy, PartialEq, Eq, Structural, Debug)]
pub struct LayoutId(pub usize);

} // verus!
