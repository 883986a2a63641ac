//! Identities of the widgets in a tree.
use vstd::prelude::*;

verus! {

/// The identity of one widget.
#[derive(Clone, Copy, Debug, PartialEq, Eq, Structural)]
pub struct WidgetTag {
    /// The number that tells this widget from every other one.
    pub id: u64,
}

/// A widget that has been made and carries its identity.
#[derive(Clone, Copy, Debug, PartialEq, Eq, Structural)]
pub struct WidgetInstance {
    /// The widget's identity.
    pub tag: WidgetTag,
}

impl WidgetInstance {
    /// Returns the widget with the identity `tag`.
    pub fn new(tag: WidgetTag) -> (widget: Self)
        ensures
            widget.tag == tag,
    {
        WidgetInstance { tag }
    }

    /// The widget's identity.
    pub fn id(&self) -> (tag: WidgetTag)
        ensures
            tag == self.tag,
    {
        self.tag
    }
}

} // verus!
