//! Widgets that draw through the render context.
use vstd::prelude::*;

verus! {

/// An empty marker type for the check box widget. The widget itself, with its
/// selected state, selection box and text, is built by a widget toolkit on top
/// of this library; this type holds nothing.
pub struct CheckBox;

} // verus!
