//! Buttons as a select presents them.
use crate::widget::{WidgetInstance, WidgetTag};
use kludgine::Color;
use vstd::prelude::*;

verus! {

/// How a button is drawn.
#[derive(Clone, Copy, Debug, PartialEq, Eq, Structural)]
pub enum ButtonKind {
    /// Filled with a solid colour.
    Solid,
    /// Drawn as an outline.
    Outline,
    /// Not drawn until the pointer is over it.
    Transparent,
}

/// A button as it is to be shown: who it is, what it holds and how it looks.
#[derive(Clone, Copy, Debug, PartialEq, Eq)]
pub struct Button {
    /// The button's identity.
    pub id: WidgetTag,
    /// The widget drawn inside the button.
    pub label: WidgetInstance,
    /// How the button is drawn.
    pub kind: ButtonKind,
    /// The background that replaces the kind's own, if any.
    pub background: Option<Color>,
    /// The background under the pointer that replaces the kind's own, if any.
    pub hover_background: Option<Color>,
}

} // verus!
