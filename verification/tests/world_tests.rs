use calculator::compose::{spawn_observer, ButtonPlugin};
use calculator::grid::{Frac, GridPoint};
use calculator::widget::{ActionButton, BevypunkColorPalette, ColorSpec, ImageHandle, MyButton};
use calculator::world::{TextElement, TextPipe, UiWorld};

fn unit_point() -> GridPoint {
    GridPoint { x: Frac { num: 0, den: 1 }, y: Frac { num: 0, den: 1 } }
}

fn button(text: &str) -> MyButton {
    MyButton {
        text: text.to_string(),
        image: ImageHandle { path: "images/button_symetric.png".to_string() },
        variant_flag: true,
    }
}

#[test]
fn plugin_builds_empty_world() {
    let w = ButtonPlugin.build();
    assert_eq!(w.widgets.len(), 0);
    assert_eq!(w.backgrounds.len(), 0);
    assert_eq!(w.texts.len(), 0);
    assert_eq!(w.zones.len(), 0);
    assert_eq!(w.next_id, 0);
}

#[test]
fn default_record_is_empty() {
    let r = MyButton::default();
    assert_eq!(r.text, "");
    assert_eq!(r.image.path, "");
    assert!(!r.variant_flag);
}

#[test]
fn composition_expands_one_subtree() {
    let mut w = ButtonPlugin.build();
    let id = w.spawn_widget(button("7"), Some(ActionButton), None, unit_point(), unit_point());
    spawn_observer(&mut w, id);
    assert_eq!(w.backgrounds.len(), 1);
    assert_eq!(w.texts.len(), 1);
    assert_eq!(w.zones.len(), 1);
    let st = w.widgets[0].subtree.as_ref().expect("subtree built");
    assert_eq!(w.backgrounds[0].id, st.background_id);
    assert_eq!(w.backgrounds[0].owner, id);
    assert_eq!(w.texts[0].id, st.text_id);
    assert_eq!(w.texts[0].pipe, TextPipe(id));
    assert_eq!(w.texts[0].content, "7");
    assert_eq!(w.zones[0].id, st.zone_id);
    assert_eq!(w.zones[0].owner, id);
}

#[test]
fn composition_is_idempotent() {
    let mut w = ButtonPlugin.build();
    let id = w.spawn_widget(button("7"), Some(ActionButton), None, unit_point(), unit_point());
    spawn_observer(&mut w, id);
    spawn_observer(&mut w, id);
    assert_eq!(w.backgrounds.len(), 1);
    assert_eq!(w.texts.len(), 1);
    assert_eq!(w.zones.len(), 1);
    assert!(w.widgets[0].subtree.is_some());
}

#[test]
fn composition_skips_unknown_entity() {
    let mut w = ButtonPlugin.build();
    spawn_observer(&mut w, 42);
    assert_eq!(w.backgrounds.len(), 0);
    assert_eq!(w.texts.len(), 0);
    assert_eq!(w.zones.len(), 0);
}

#[test]
fn composition_installs_hover_and_colors() {
    let mut w = ButtonPlugin.build();
    let id = w.spawn_widget(button("7"), Some(ActionButton), None, unit_point(), unit_point());
    spawn_observer(&mut w, id);
    let bg = &w.backgrounds[0];
    assert_eq!(bg.base_color, ColorSpec::bevypunk_red().with_alpha(400));
    assert_eq!(bg.hover_color, ColorSpec::bevypunk_yellow().with_alpha(1200));
    assert!(!bg.hover.hovered);
    assert_eq!(bg.hover.forward_speed, 20);
    assert_eq!(bg.hover.backward_speed, 5);
    assert!(bg.hover.enlarge);
    assert_eq!(bg.slice_border, 32);
    let te = &w.texts[0];
    assert_eq!(te.base_color, ColorSpec::bevypunk_red());
    assert!(te.hover.instant);
    assert!(te.hover.enlarge);
}

#[test]
fn composition_display_field_does_not_enlarge() {
    let mut w = ButtonPlugin.build();
    let mut rec = button("");
    rec.variant_flag = false;
    let id = w.spawn_widget(rec, None, None, unit_point(), unit_point());
    spawn_observer(&mut w, id);
    assert!(!w.backgrounds[0].hover.enlarge);
    assert!(!w.texts[0].hover.enlarge);
}

#[test]
fn creation_does_not_mark_changed() {
    let mut w = ButtonPlugin.build();
    let id = w.spawn_widget(button("7"), Some(ActionButton), None, unit_point(), unit_point());
    spawn_observer(&mut w, id);
    assert!(!w.widgets[0].changed);
}

#[test]
fn sync_last_write_wins() {
    let mut w = ButtonPlugin.build();
    let id = w.spawn_widget(button("x"), Some(ActionButton), None, unit_point(), unit_point());
    spawn_observer(&mut w, id);
    w.set_text(id, "7".to_string());
    w.set_text(id, "8".to_string());
    TextPipe::system(&mut w);
    assert_eq!(w.texts[0].content, "8");
    assert!(!w.widgets[0].changed);
}

#[test]
fn sync_does_nothing_without_changes() {
    let mut w = ButtonPlugin.build();
    let id = w.spawn_widget(button("7"), Some(ActionButton), None, unit_point(), unit_point());
    spawn_observer(&mut w, id);
    TextPipe::system(&mut w);
    assert_eq!(w.texts[0].content, "7");
}

#[test]
fn sync_is_idempotent_in_effect() {
    let mut w = ButtonPlugin.build();
    let id = w.spawn_widget(button("x"), Some(ActionButton), None, unit_point(), unit_point());
    spawn_observer(&mut w, id);
    w.set_text(id, "9".to_string());
    TextPipe::system(&mut w);
    let once = w.texts[0].content.clone();
    TextPipe::system(&mut w);
    assert_eq!(w.texts[0].content, once);
}

#[test]
fn sync_tolerates_dangling_pipe() {
    // A link whose widget no longer exists is skipped silently.
    let mut w = UiWorld {
        widgets: Vec::new(),
        backgrounds: Vec::new(),
        texts: Vec::new(),
        zones: Vec::new(),
        next_id: 10,
    };
    w.texts.push(TextElement {
        id: 3,
        content: "stale".to_string(),
        pipe: TextPipe(42),
        base_color: ColorSpec::bevypunk_red(),
        hover_color: ColorSpec::bevypunk_blue(),
        hover: calculator::widget::HoverAnimator {
            hovered: false,
            forward_speed: 20,
            backward_speed: 5,
            instant: true,
            enlarge: false,
        },
    });
    TextPipe::system(&mut w);
    assert_eq!(w.texts[0].content, "stale");
}

#[test]
fn set_text_marks_changed() {
    let mut w = ButtonPlugin.build();
    let id = w.spawn_widget(button("x"), Some(ActionButton), None, unit_point(), unit_point());
    w.set_text(id, "y".to_string());
    assert!(w.widgets[0].changed);
    assert_eq!(w.widgets[0].record.text, "y");
}

#[test]
fn set_text_on_unknown_widget_is_a_noop() {
    let mut w = ButtonPlugin.build();
    let id = w.spawn_widget(button("x"), Some(ActionButton), None, unit_point(), unit_point());
    w.set_text(id + 7, "y".to_string());
    assert_eq!(w.widgets[0].record.text, "x");
    assert!(!w.widgets[0].changed);
}
