//! Style slots of a select and their resolution through the widget hierarchy.
use kludgine::Color;
use vstd::prelude::*;

verus! {

/// `kludgine::Color`, a colour packed into 32 bits. It is declared opaque:
/// the library hands colours on and never looks inside one, so nothing is
/// claimed of what a colour holds.
#[verifier::external_type_specification]
#[verifier::external_body]
pub struct ExColor(kludgine::Color);

/// The named colour slots of a widget's style.
#[derive(Clone, Copy, Debug, PartialEq, Eq, Structural)]
pub enum ColorSlot {
    /// The background of a select whose value is the current one.
    Selected,
    /// The colour of outlines.
    Outline,
    /// The colour of text.
    Text,
}

/// The colour slots that one widget has set for itself. A slot that is `None`
/// is left to the widgets around it.
#[derive(Clone, Copy, Debug, PartialEq, Eq)]
pub struct Styles {
    /// The background of a select whose value is the current one.
    pub selected_color: Option<Color>,
    /// The colour of outlines.
    pub outline_color: Option<Color>,
    /// The colour of text.
    pub text_color: Option<Color>,
}

impl Styles {
    /// What this widget has set for `slot`.
    pub open spec fn slot(&self, slot: ColorSlot) -> Option<Color> {
        match slot {
            ColorSlot::Selected => self.selected_color,
            ColorSlot::Outline => self.outline_color,
            ColorSlot::Text => self.text_color,
        }
    }

    /// Returns styles with no slot set.
    pub fn new() -> (styles: Self)
        ensures
            forall|slot: ColorSlot| styles.slot(slot).is_none(),
    {
        Styles { selected_color: None, outline_color: None, text_color: None }
    }

    /// Sets `slot` to `color` and returns the styles.
    pub fn with(self, slot: ColorSlot, color: Color) -> (styles: Self)
        ensures
            styles.slot(slot) == Some(color),
            forall|other: ColorSlot| other != slot ==> styles.slot(other) == self.slot(other),
    {
        let mut styles = self;
        match slot {
            ColorSlot::Selected => {
                styles.selected_color = Some(color);
            },
            ColorSlot::Outline => {
                styles.outline_color = Some(color);
            },
            ColorSlot::Text => {
                styles.text_color = Some(color);
            },
        }
        styles
    }

    /// What this widget has set for `slot`.
    pub fn get(&self, slot: ColorSlot) -> (color: Option<Color>)
        ensures
            color == self.slot(slot),
    {
        match slot {
            ColorSlot::Selected => self.selected_color,
            ColorSlot::Outline => self.outline_color,
            ColorSlot::Text => self.text_color,
        }
    }
}

/// The first colour set for `slot` in `styles`, which run from a widget
/// outward to the root of its tree; `None` where no widget sets the slot.
pub open spec fn nearest(styles: Seq<Styles>, slot: ColorSlot) -> Option<Color>
    decreases styles.len(),
{
    if styles.len() == 0 {
        None
    } else if styles[0].slot(slot).is_some() {
        styles[0].slot(slot)
    } else {
        nearest(styles.drop_first(), slot)
    }
}

/// Whether the widget at `index` of `styles` sets `slot` and no widget nearer
/// than it does.
pub open spec fn is_first_set(styles: Seq<Styles>, slot: ColorSlot, index: int) -> bool {
    &&& 0 <= index < styles.len()
    &&& styles[index].slot(slot).is_some()
    &&& forall|nearer: int| 0 <= nearer < index ==> styles[nearer].slot(slot).is_none()
}

/// What a widget sees of the styles around it.
#[derive(Debug)]
pub struct WidgetContext {
    /// The styles of the widget itself, then of each widget that holds it,
    /// the nearest first.
    pub styles: Vec<Styles>,
    /// The outline colour of the theme, used where no widget sets one.
    pub theme_outline: Color,
    /// The text colour of the theme, used where no widget sets one.
    pub theme_text: Color,
}

impl WidgetContext {
    /// The outline colour in effect: the nearest one set, else the theme's.
    pub open spec fn outline(&self) -> Color {
        match nearest(self.styles@, ColorSlot::Outline) {
            Some(color) => color,
            None => self.theme_outline,
        }
    }

    /// The colour of a selected select in effect: the nearest one set, else
    /// the outline colour in effect.
    pub open spec fn selected(&self) -> Color {
        match nearest(self.styles@, ColorSlot::Selected) {
            Some(color) => color,
            None => self.outline(),
        }
    }

    /// The text colour in effect: the nearest one set, else the theme's.
    pub open spec fn text(&self) -> Color {
        match nearest(self.styles@, ColorSlot::Text) {
            Some(color) => color,
            None => self.theme_text,
        }
    }

    /// The colour in effect for `slot`.
    pub open spec fn color(&self, slot: ColorSlot) -> Color {
        match slot {
            ColorSlot::Selected => self.selected(),
            ColorSlot::Outline => self.outline(),
            ColorSlot::Text => self.text(),
        }
    }

    /// The first colour set for `slot`, from the widget outward.
    pub fn find(&self, slot: ColorSlot) -> (color: Option<Color>)
        ensures
            color == nearest(self.styles@, slot),
    {
        let mut i: usize = 0;
        assert(self.styles@.skip(0) =~= self.styles@);
        while i < self.styles.len()
            invariant
                i <= self.styles.len(),
                nearest(self.styles@, slot) == nearest(self.styles@.skip(i as int), slot),
            decreases self.styles.len() - i,
        {
            let found = self.styles[i].get(slot);
            if found.is_some() {
                return found;
            }
            assert(self.styles@.skip(i as int).drop_first() =~= self.styles@.skip(i + 1));
            i += 1;
        }
        None
    }

    /// The colour in effect for `slot`.
    pub fn get(&self, slot: ColorSlot) -> (color: Color)
        ensures
            color == self.color(slot),
    {
        match self.find(slot) {
            Some(color) => color,
            None => match slot {
                ColorSlot::Selected => self.get_outline(),
                ColorSlot::Outline => self.theme_outline,
                ColorSlot::Text => self.theme_text,
            },
        }
    }

    fn get_outline(&self) -> (color: Color)
        ensures
            color == self.outline(),
    {
        match self.find(ColorSlot::Outline) {
            Some(color) => color,
            None => self.theme_outline,
        }
    }
}

/// Where no widget sets the colour of a selected select, it is the outline
/// colour in effect.
pub proof fn lemma_selected_falls_back_to_outline(context: WidgetContext)
    requires
        nearest(context.styles@, ColorSlot::Selected).is_none(),
    ensures
        context.selected() == context.outline(),
{
}

/// A slot that the widget itself sets hides whatever the widgets around it
/// set for it.
pub proof fn lemma_own_style_wins(styles: Seq<Styles>, slot: ColorSlot)
    requires
        styles.len() > 0,
        styles[0].slot(slot).is_some(),
    ensures
        nearest(styles, slot) == styles[0].slot(slot),
{
}

/// The nearest colour set for a slot is that of the first widget, from the
/// inside outward, that sets the slot; there is none exactly when no widget
/// sets it.
pub proof fn lemma_nearest_is_first_set(styles: Seq<Styles>, slot: ColorSlot)
    ensures
        nearest(styles, slot).is_some() ==> exists|index: int|
            is_first_set(styles, slot, index)
                && #[trigger] styles[index].slot(slot) == nearest(styles, slot),
        nearest(styles, slot).is_none() ==> forall|index: int|
            0 <= index < styles.len() ==> (#[trigger] styles[index]).slot(slot).is_none(),
    decreases styles.len(),
{
    if styles.len() == 0 {
    } else if styles[0].slot(slot).is_some() {
        assert(is_first_set(styles, slot, 0));
    } else {
        let rest = styles.drop_first();
        lemma_nearest_is_first_set(rest, slot);
        if nearest(rest, slot).is_some() {
            let inner = choose|index: int|
                is_first_set(rest, slot, index)
                    && #[trigger] rest[index].slot(slot) == nearest(rest, slot);
            assert forall|nearer: int| 0 <= nearer < inner + 1 implies styles[nearer].slot(
                slot,
            ).is_none() by {
                if nearer > 0 {
                    assert(rest[nearer - 1] == styles[nearer]);
                }
            }
            assert(is_first_set(styles, slot, inner + 1));
            assert(styles[inner + 1].slot(slot) == nearest(styles, slot));
        } else {
            assert forall|index: int| 0 <= index < styles.len() implies (
            #[trigger] styles[index]).slot(slot).is_none() by {
                if index > 0 {
                    assert(rest[index - 1] == styles[index]);
                }
            }
        }
    }
}

/// A widget that leaves a slot unset takes it from the widgets around it.
pub proof fn lemma_unset_style_inherits(styles: Seq<Styles>, slot: ColorSlot)
    requires
        styles.len() > 0,
        styles[0].slot(slot).is_none(),
    ensures
        nearest(styles, slot) == nearest(styles.drop_first(), slot),
{
}

} // verus!
