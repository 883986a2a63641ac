use kludgine::Color;
use select_widget::button::{Button, ButtonKind};
use select_widget::select::Select;
use select_widget::styles::{ColorSlot, Styles, WidgetContext};
use select_widget::value::{Dynamic, Value};
use select_widget::widget::{WidgetInstance, WidgetTag};

const THEME: Color = Color(0x1020_30ff);
const TEXT: Color = Color(0xeeee_eeff);
const OUTLINE: Color = Color(0x0000_ffff);
const ACCENT: Color = Color(0xff00_00ff);

fn label() -> WidgetInstance {
    WidgetInstance::new(WidgetTag { id: 7 })
}

fn plain_context() -> WidgetContext {
    WidgetContext { styles: vec![Styles::new()], theme_outline: THEME, theme_text: TEXT }
}

fn styled_context() -> WidgetContext {
    WidgetContext {
        styles: vec![
            Styles::new(),
            Styles::new().with(ColorSlot::Selected, ACCENT),
            Styles::new().with(ColorSlot::Outline, OUTLINE),
        ],
        theme_outline: THEME,
        theme_text: TEXT,
    }
}

#[test]
fn new_select_is_transparent() {
    let select = Select::new(3u32, Dynamic::new(1u32), label());
    assert_eq!(select.value, 3);
    assert_eq!(*select.state.get(), 1);
    assert!(matches!(select.kind, Value::Constant(ButtonKind::Transparent)));
    assert_eq!(select.label, label());
}

#[test]
fn kind_replaces_only_the_basis() {
    let select =
        Select::new(3u32, Dynamic::new(1u32), label()).kind(Value::Constant(ButtonKind::Outline));
    assert!(matches!(select.kind, Value::Constant(ButtonKind::Outline)));
    assert_eq!(select.value, 3);
    assert_eq!(*select.state.get(), 1);
    assert_eq!(select.label, label());
}

#[test]
fn selected_when_state_holds_the_value() {
    let select = Select::new(3u32, Dynamic::new(3u32), label());
    assert!(select.is_selected());
}

#[test]
fn not_selected_when_state_holds_another_value() {
    let select = Select::new(3u32, Dynamic::new(4u32), label());
    assert!(!select.is_selected());
}

#[test]
fn selection_follows_the_equality_of_the_value_type() {
    let select = Select::new(String::from("b"), Dynamic::new(String::from("a")), label());
    assert!(!select.is_selected());
    let select = Select::new(String::from("a"), Dynamic::new(String::from("a")), label());
    assert!(select.is_selected());
}

#[test]
fn selected_button_is_solid_whatever_the_basis() {
    let select = Select::new(1u8, Dynamic::new(1u8), label());
    assert_eq!(select.button_kind(true), ButtonKind::Solid);
    let select = select.kind(Value::Constant(ButtonKind::Outline));
    assert_eq!(select.button_kind(true), ButtonKind::Solid);
}

#[test]
fn unselected_button_keeps_the_basis() {
    let select = Select::new(1u8, Dynamic::new(2u8), label());
    assert_eq!(select.button_kind(false), ButtonKind::Transparent);
    let select = select.kind(Value::Constant(ButtonKind::Outline));
    assert_eq!(select.button_kind(false), ButtonKind::Outline);
    let select = select.kind(Value::Dynamic(Dynamic::new(ButtonKind::Solid)));
    assert_eq!(select.button_kind(false), ButtonKind::Solid);
}

#[test]
fn dynamic_basis_is_read_as_it_stands() {
    let mut basis = Dynamic::new(ButtonKind::Transparent);
    basis.set(ButtonKind::Outline);
    let select = Select::new(1u8, Dynamic::new(2u8), label()).kind(Value::Dynamic(basis));
    assert_eq!(select.button_kind(false), ButtonKind::Outline);
    assert_eq!(select.button_kind(true), ButtonKind::Solid);
}

#[test]
fn unselected_has_no_background() {
    assert_eq!(Select::<u32>::selected_color(false, &styled_context()), None);
    assert_eq!(Select::<u32>::selected_color(false, &plain_context()), None);
}

#[test]
fn selected_background_is_the_nearest_selected_color() {
    assert_eq!(Select::<u32>::selected_color(true, &styled_context()), Some(ACCENT));
}

#[test]
fn selected_background_falls_back_to_the_outline() {
    let context = WidgetContext {
        styles: vec![Styles::new(), Styles::new().with(ColorSlot::Outline, OUTLINE)],
        theme_outline: THEME,
        theme_text: TEXT,
    };
    assert_eq!(Select::<u32>::selected_color(true, &context), Some(OUTLINE));
}

#[test]
fn selected_background_falls_back_to_the_theme() {
    assert_eq!(Select::<u32>::selected_color(true, &plain_context()), Some(THEME));
    let bare = WidgetContext { styles: Vec::new(), theme_outline: THEME, theme_text: TEXT };
    assert_eq!(Select::<u32>::selected_color(true, &bare), Some(THEME));
}

#[test]
fn button_of_a_selected_select() {
    let select = Select::new(5i64, Dynamic::new(5i64), label());
    let button = select.make_with_id(WidgetTag { id: 11 }, &styled_context());
    assert_eq!(
        button,
        Button {
            id: WidgetTag { id: 11 },
            label: label(),
            kind: ButtonKind::Solid,
            background: Some(ACCENT),
            hover_background: Some(ACCENT),
        }
    );
}

#[test]
fn button_of_an_unselected_select() {
    let select = Select::new(5i64, Dynamic::new(6i64), label())
        .kind(Value::Constant(ButtonKind::Outline));
    let button = select.make_with_id(WidgetTag { id: 12 }, &styled_context());
    assert_eq!(
        button,
        Button {
            id: WidgetTag { id: 12 },
            label: label(),
            kind: ButtonKind::Outline,
            background: None,
            hover_background: None,
        }
    );
}

#[test]
fn button_takes_the_selection_it_is_given() {
    let select = Select::new(5i64, Dynamic::new(6i64), label());
    let context = plain_context();
    let shown = select.button(true, WidgetTag { id: 1 }, &context);
    assert_eq!(shown.kind, ButtonKind::Solid);
    assert_eq!(shown.background, Some(THEME));
    assert_eq!(shown.hover_background, Some(THEME));
    let hidden = select.button(false, WidgetTag { id: 1 }, &context);
    assert_eq!(hidden.kind, ButtonKind::Transparent);
    assert_eq!(hidden.background, None);
    assert_eq!(hidden.hover_background, None);
    assert_eq!(hidden.id, WidgetTag { id: 1 });
    assert_eq!(hidden.label, label());
}

#[test]
fn press_stores_the_value() {
    let mut select = Select::new(9u16, Dynamic::new(2u16), label());
    assert!(!select.is_selected());
    select.press();
    assert_eq!(*select.state.get(), 9);
    assert_eq!(select.value, 9);
    assert!(select.is_selected());
    assert!(matches!(select.kind, Value::Constant(ButtonKind::Transparent)));
    assert_eq!(select.label, label());
}

#[test]
fn press_on_a_selected_select_changes_nothing() {
    let mut select = Select::new(String::from("on"), Dynamic::new(String::from("on")), label());
    select.press();
    assert_eq!(select.state.get(), "on");
    assert!(select.is_selected());
}

#[test]
fn one_of_a_group_is_selected() {
    let group: Vec<Select<u32>> =
        (0..4u32).map(|value| Select::new(value, Dynamic::new(2), label())).collect();
    let selected: Vec<u32> =
        group.iter().filter(|select| select.is_selected()).map(|select| select.value).collect();
    assert_eq!(selected, vec![2]);
}
