use calculator::action::{action_observer, evaluation_request, pointer_event, PointerEvent, PointerKind};
use calculator::compose::ButtonPlugin;
use calculator::world::TextPipe;
use calculator::widget::{DisplayField, MyButton, ImageHandle};
use calculator::world::UiWorld;
use calculator::ui::spawn_ui;

fn calculator_world() -> UiWorld {
    let mut w = ButtonPlugin.build();
    spawn_ui(&mut w);
    w
}

/// The external evaluator as the shell runs it: floating-point evaluation
/// in calc, the answer formatted with `{}`.
fn evaluate(expr: &str) -> Option<String> {
    calc::Context::<f64>::default()
        .evaluate(expr)
        .ok()
        .map(|v| format!("{}", v))
}

/// One click as the shell delivers it: ask the library what the click needs
/// evaluated, run the evaluator, route the click, settle the text pipes.
fn click(w: &mut UiWorld, label: &str) {
    let z = zone_of_label(w, label);
    let eval = evaluation_request(w, z).and_then(|expr| evaluate(&expr));
    action_observer(w, z, eval);
    TextPipe::system(w);
}

fn zone_of_label(w: &UiWorld, label: &str) -> u64 {
    for wd in &w.widgets {
        if wd.record.text == label && wd.action.is_some() {
            return wd.subtree.as_ref().expect("composed").zone_id;
        }
    }
    panic!("no such button: {label}");
}

fn display_content(w: &UiWorld) -> String {
    let st = w.widgets[1].subtree.as_ref().expect("display composed");
    for te in &w.texts {
        if te.id == st.text_id {
            return te.content.clone();
        }
    }
    panic!("display text element missing");
}

#[test]
fn spawn_ui_builds_eighteen_widgets() {
    let w = calculator_world();
    assert_eq!(w.widgets.len(), 18);
    assert_eq!(w.backgrounds.len(), 18);
    assert_eq!(w.texts.len(), 18);
    assert_eq!(w.zones.len(), 18);
}

#[test]
fn spawn_ui_places_clear_and_display() {
    let w = calculator_world();
    let c = &w.widgets[0];
    assert_eq!(c.record.text, "C");
    assert!(c.action.is_some());
    assert!(c.display.is_none());
    assert!(c.record.variant_flag);
    assert_eq!(c.layout_pos.x.num, 20);
    assert_eq!(c.layout_size.x.num, 75);
    let d = &w.widgets[1];
    assert_eq!(d.record.text, "");
    assert!(d.action.is_none());
    assert!(d.display.is_some());
    assert!(!d.record.variant_flag);
    assert_eq!(d.layout_pos.x.num, 115);
    assert_eq!(d.layout_size.x.num, 265);
}

#[test]
fn spawn_ui_action_button_labels_row_by_row() {
    let w = calculator_world();
    let labels: Vec<&str> = vec![
        "7", "8", "9", "/", "4", "5", "6", "*", "1", "2", "3", "-", "0", ".", "=", "+",
    ];
    for (i, label) in labels.iter().enumerate() {
        assert_eq!(w.widgets[2 + i].record.text, *label);
        assert!(w.widgets[2 + i].action.is_some());
    }
}

#[test]
fn spawn_ui_corner_images() {
    let w = calculator_world();
    assert_eq!(w.widgets[2].record.image.path, "images/button_sliced_top_left.png");
    assert_eq!(w.widgets[5].record.image.path, "images/button_sliced_top_right.png");
    assert_eq!(w.widgets[14].record.image.path, "images/button_sliced_bottom_left.png");
    assert_eq!(w.widgets[17].record.image.path, "images/button_sliced_bottom_right.png");
    assert_eq!(w.widgets[3].record.image.path, "images/button_symetric.png");
}

#[test]
fn click_to_display_round_trip() {
    // Pressing "1", "2", "=" on an empty display runs through
    // "" -> "1" -> "12" -> "12" with no intermediate error.
    let mut w = calculator_world();
    assert_eq!(display_content(&w), "");
    click(&mut w, "1");
    assert_eq!(display_content(&w), "1");
    click(&mut w, "2");
    assert_eq!(display_content(&w), "12");
    click(&mut w, "=");
    assert_eq!(display_content(&w), "12");
}

#[test]
fn click_clear_after_typing() {
    let mut w = calculator_world();
    click(&mut w, "7");
    assert_eq!(display_content(&w), "7");
    click(&mut w, "C");
    assert_eq!(display_content(&w), "");
}

#[test]
fn click_evaluates_sum() {
    let mut w = calculator_world();
    for label in ["2", "+", "2", "="] {
        click(&mut w, label);
    }
    assert_eq!(display_content(&w), "4");
}

#[test]
fn click_bad_expression_then_recover() {
    let mut w = calculator_world();
    for label in ["2", "+", "="] {
        click(&mut w, label);
    }
    assert_eq!(display_content(&w), "Error");
    click(&mut w, "5");
    assert_eq!(display_content(&w), "5");
}

#[test]
fn click_unknown_zone_is_dropped() {
    // An event naming a nonexistent zone leaves the display unchanged.
    let mut w = calculator_world();
    let before = display_content(&w);
    action_observer(&mut w, 999_999, None);
    TextPipe::system(&mut w);
    assert_eq!(display_content(&w), before);
    assert_eq!(w.widgets.len(), 18);
}

#[test]
fn click_display_zone_is_dropped() {
    // The display widget has no click-handling role.
    let mut w = calculator_world();
    let st = w.widgets[1].subtree.as_ref().expect("composed").zone_id;
    action_observer(&mut w, st, None);
    TextPipe::system(&mut w);
    assert_eq!(display_content(&w), "");
}

#[test]
fn click_without_unique_display_is_dropped() {
    let mut w = calculator_world();
    // A second display widget breaks the unique lookup; clicks are dropped.
    let rec = MyButton {
        text: String::new(),
        image: ImageHandle { path: "images/button_symetric.png".to_string() },
        variant_flag: false,
    };
    let pos = w.widgets[1].layout_pos;
    let size = w.widgets[1].layout_size;
    w.spawn_widget(rec, None, Some(DisplayField), pos, size);
    click(&mut w, "7");
    assert_eq!(display_content(&w), "");
}

#[test]
fn hover_enter_and_leave_animate_in_lockstep() {
    let mut w = calculator_world();
    let z = zone_of_label(&w, "7");
    let st = *w.widgets[2].subtree.as_ref().expect("composed");
    pointer_event(&mut w, &PointerEvent { kind: PointerKind::Enter, zone_id: z }, None);
    let bg = w.backgrounds.iter().find(|b| b.id == st.background_id).unwrap();
    let te = w.texts.iter().find(|t| t.id == st.text_id).unwrap();
    assert!(bg.hover.hovered);
    assert!(te.hover.hovered);
    pointer_event(&mut w, &PointerEvent { kind: PointerKind::Leave, zone_id: z }, None);
    let bg = w.backgrounds.iter().find(|b| b.id == st.background_id).unwrap();
    let te = w.texts.iter().find(|t| t.id == st.text_id).unwrap();
    assert!(!bg.hover.hovered);
    assert!(!te.hover.hovered);
}

#[test]
fn hover_leaves_other_widgets_alone() {
    let mut w = calculator_world();
    let z = zone_of_label(&w, "7");
    pointer_event(&mut w, &PointerEvent { kind: PointerKind::Enter, zone_id: z }, None);
    let st8 = *w.widgets[3].subtree.as_ref().expect("composed");
    let bg8 = w.backgrounds.iter().find(|b| b.id == st8.background_id).unwrap();
    assert!(!bg8.hover.hovered);
}

#[test]
fn click_event_through_pointer_dispatch() {
    let mut w = calculator_world();
    let z = zone_of_label(&w, "9");
    pointer_event(&mut w, &PointerEvent { kind: PointerKind::Click, zone_id: z }, None);
    TextPipe::system(&mut w);
    assert_eq!(display_content(&w), "9");
}
