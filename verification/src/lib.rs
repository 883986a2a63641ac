//! A selectable, labeled control: the decisions behind a button that stands
//! for one value of a shared state and shows whether that value is the
//! current one.
pub mod button;
pub mod select;
pub mod styles;
pub mod value;
pub mod widget;
