//! A selectable, labeled widget representing a value.
use crate::button::{Button, ButtonKind};
use crate::styles::{ColorSlot, WidgetContext};
use crate::value::{Dynamic, Value};
use crate::widget::{WidgetInstance, WidgetTag};
use kludgine::Color;
use vstd::laws_eq::obeys_concrete_eq;
use vstd::laws_eq::obeys_eq_spec_properties;
use vstd::pervasive::cloned;
use vstd::prelude::*;
use vstd::std_specs::cmp::PartialEqSpec;

verus! {

/// A selectable, labeled widget representing a value.
#[derive(Debug)]
pub struct Select<T> {
    /// The value this button represents.
    pub value: T,
    /// The state (value) of the select.
    pub state: Dynamic<T>,
    /// The button kind to use as the basis for this select. Selects default to
    /// [`ButtonKind::Transparent`].
    pub kind: Value<ButtonKind>,
    /// The widget drawn inside of the button.
    pub label: WidgetInstance,
}

/// The kind a select's button is drawn with: solid while it is selected, its
/// basis otherwise.
pub open spec fn shown_kind(selected: bool, basis: ButtonKind) -> ButtonKind {
    if selected {
        ButtonKind::Solid
    } else {
        basis
    }
}

/// The background a select's button is given: the colour of selected selects
/// in effect while it is selected, none otherwise.
pub open spec fn shown_background(selected: bool, context: WidgetContext) -> Option<Color> {
    if selected {
        Some(context.selected())
    } else {
        None
    }
}

impl<T> Select<T> {
    /// Whether the state holds the value that this select represents.
    pub open spec fn selected(&self) -> bool where T: PartialEq {
        self.state@.eq_spec(&self.value)
    }

    /// The button that shows this select under the identity `id`, given
    /// whether it is selected.
    pub open spec fn shown(&self, selected: bool, id: WidgetTag, context: WidgetContext) -> Button {
        Button {
            id,
            label: self.label,
            kind: shown_kind(selected, self.kind.current()),
            background: shown_background(selected, context),
            hover_background: shown_background(selected, context),
        }
    }

    /// Returns a new select that sets `state` to `value` when pressed. `label`
    /// is drawn inside of the button.
    pub fn new(value: T, state: Dynamic<T>, label: WidgetInstance) -> (select: Self)
        ensures
            select.value == value,
            select.state == state,
            select.kind == Value::Constant(ButtonKind::Transparent),
            select.label == label,
    {
        Select { value, state, kind: Value::Constant(ButtonKind::Transparent), label }
    }

    /// Updates the button kind to use as the basis for this select, and
    /// returns self.
    ///
    /// Selects default to [`ButtonKind::Transparent`].
    #[must_use]
    pub fn kind(self, kind: Value<ButtonKind>) -> (select: Self)
        ensures
            select.kind == kind,
            select.value == self.value,
            select.state == self.state,
            select.label == self.label,
    {
        Select { value: self.value, state: self.state, kind, label: self.label }
    }

    /// Whether the state holds the value that this select represents, as the
    /// equality of `T` decides it.
    pub fn is_selected(&self) -> (selected: bool) where T: PartialEq
        ensures
            call_ensures(T::eq, (&self.state@, &self.value), selected),
            T::obeys_eq_spec() ==> selected == self.selected(),
    {
        self.state.get().eq(&self.value)
    }

    /// The kind the button is drawn with, given whether the select is
    /// selected.
    pub fn button_kind(&self, selected: bool) -> (kind: ButtonKind)
        ensures
            kind == shown_kind(selected, self.kind.current()),
    {
        if selected {
            ButtonKind::Solid
        } else {
            *self.kind.get()
        }
    }

    /// The background the button is given, at rest and under the pointer,
    /// given whether the select is selected.
    pub fn selected_color(selected: bool, context: &WidgetContext) -> (color: Option<Color>)
        ensures
            color == shown_background(selected, *context),
    {
        if selected {
            Some(context.get(ColorSlot::Selected))
        } else {
            None
        }
    }

    /// The button that shows this select under the identity `id`, given
    /// whether it is selected.
    pub fn button(&self, selected: bool, id: WidgetTag, context: &WidgetContext) -> (button: Button)
        ensures
            button == self.shown(selected, id, *context),
    {
        let background = Self::selected_color(selected, context);
        Button {
            id,
            label: self.label,
            kind: self.button_kind(selected),
            background,
            hover_background: background,
        }
    }

    /// The button that shows this select as its state stands, under the
    /// identity `id`.
    pub fn make_with_id(&self, id: WidgetTag, context: &WidgetContext) -> (button: Button)
        where T: PartialEq
        ensures
            exists|selected: bool|
                call_ensures(T::eq, (&self.state@, &self.value), selected)
                    && button == #[trigger] self.shown(selected, id, *context),
            T::obeys_eq_spec() ==> button == self.shown(self.selected(), id, *context),
    {
        let selected = self.is_selected();
        let button = self.button(selected, id, context);
        assert(button == self.shown(selected, id, *context));
        button
    }

    /// Presses the button: the state takes a clone of the value that this
    /// select represents. Nothing else changes.
    pub fn press(&mut self) where T: Clone
        ensures
            cloned(old(self).value, final(self).state@),
            final(self).value == old(self).value,
            final(self).kind == old(self).kind,
            final(self).label == old(self).label,
    {
        let value = self.value.clone();
        self.state.set(value);
    }
}

/// Of two selects that watch the same state, at most one is selected, unless
/// their values are equal. This holds for every `T` whose equality is
/// symmetric and transitive.
pub proof fn lemma_one_selected<T: PartialEq>(first: Select<T>, second: Select<T>)
    requires
        obeys_eq_spec_properties::<T>(),
        first.state@ == second.state@,
        !first.value.eq_spec(&second.value),
    ensures
        !(first.selected() && second.selected()),
{
    reveal(obeys_eq_spec_properties);
    if first.selected() && second.selected() {
        assert(first.state@.eq_spec(&first.value));
        assert(first.value.eq_spec(&first.state@));
        assert(second.state@.eq_spec(&second.value));
        assert(first.value.eq_spec(&second.value));
    }
}

/// Where the equality of `T` is plain equality, a select is selected exactly
/// when its state holds its value; so it is once the state has taken it.
pub proof fn lemma_selected_when_state_is_value<T: PartialEq>(select: Select<T>)
    requires
        obeys_concrete_eq::<T>(),
    ensures
        select.selected() <==> select.state@ == select.value,
{
    reveal(obeys_concrete_eq);
}

/// While a select is selected its button is solid, whatever its basis, and
/// has the colour of selected selects as its background; while it is not, the
/// button has the basis kind and no background of its own.
pub proof fn lemma_selected_is_solid<T>(
    select: Select<T>,
    id: WidgetTag,
    context: WidgetContext,
)
    ensures
        select.shown(true, id, context).kind == ButtonKind::Solid,
        select.shown(true, id, context).background == Some(context.selected()),
        select.shown(false, id, context).kind == select.kind.current(),
        select.shown(false, id, context).background.is_none(),
{
}

} // verus!
