//! Click routing and the calculator state machine.
//!
//! A discrete pointer event names a hit-test zone.  Enter and leave events
//! drive the hover animators of the zone's sibling elements in lockstep;
//! a click resolves the zone to its owning widget and feeds that widget's
//! label, together with the unique display widget, into the calculator
//! transition.  Any resolution failure drops the event silently.
//!
//! Evaluating the display buffer as a numeric expression is the external
//! evaluator's work and runs outside this library: [`evaluation_request`]
//! tells the shell which expression the pending click needs evaluated, and
//! the transition takes the evaluator's formatted answer as an argument.
//! The transition itself is total: `"C"` clears the display, `"="` shows
//! the evaluator's answer or the literal `"Error"` when evaluation failed,
//! and every other label is appended to the buffer, clearing a leftover
//! `"Error"` first.

use vstd::prelude::*;
use vstd::string::StrSliceExecFns;
use vstd::string::StringExecFns;

use crate::widget::HoverAnimator;
use crate::widget::MyButton;
use crate::world::{Background, TextElement, UiWorld, Widget};

verus! {

/// Character-wise string comparison: true exactly when the views agree.
pub fn str_eq(a: &str, b: &str) -> (r: bool)
    ensures
        r == (a@ == b@),
{
    let la = a.unicode_len();
    let lb = b.unicode_len();
    if la != lb {
        return false;
    }
    let mut i: usize = 0;
    while i < la
        invariant
            la == a@.len(),
            lb == b@.len(),
            la == lb,
            i <= la,
            forall|j: int| 0 <= j < i ==> a@[j] == b@[j],
        decreases la - i,
    {
        if a.get_char(i) != b.get_char(i) {
            return false;
        }
        i = i + 1;
    }
    proof {
        assert(a@ =~= b@);
    }
    true
}

/// The calculator transition: the next display buffer after pressing the
/// button labelled `label` while the display shows `display`.  `eval` is
/// the external evaluator's answer for `display` — the formatted value, or
/// nothing when parsing or evaluation failed — and is consulted only by the
/// `"="` label.
pub open spec fn press_spec(
    label: Seq<char>,
    display: Seq<char>,
    eval: Option<Seq<char>>,
) -> Seq<char> {
    if label == "C"@ {
        Seq::<char>::empty()
    } else if label == "="@ {
        match eval {
            Some(v) => v,
            None => "Error"@,
        }
    } else if display == "Error"@ {
        label
    } else {
        display + label
    }
}

/// Applies one calculator transition and returns the new display buffer.
///
/// Total over all inputs: `"C"` clears, `"="` shows the evaluator's answer
/// (or `"Error"` when the evaluator failed), and any other label is
/// appended — after first clearing a display that shows `"Error"`.
pub fn press(label: &str, display: &str, eval: Option<String>) -> (r: String)
    ensures
        r@ == press_spec(label@, display@, eval.deep_view()),
{
    if str_eq(label, "C") {
        String::new()
    } else if str_eq(label, "=") {
        match eval {
            Some(s) => s,
            None => String::from_str("Error"),
        }
    } else if str_eq(display, "Error") {
        String::from_str(label)
    } else {
        let mut out = display.to_owned();
        out.append(label);
        out
    }
}

/// The labels the calculator's keypad can deliver: the clear key, the
/// evaluation key, the ten digits, the decimal point and the four operator
/// keys.
pub open spec fn is_button_label(label: Seq<char>) -> bool {
    ||| label == "C"@
    ||| label == "="@
    ||| label == "0"@
    ||| label == "1"@
    ||| label == "2"@
    ||| label == "3"@
    ||| label == "4"@
    ||| label == "5"@
    ||| label == "6"@
    ||| label == "7"@
    ||| label == "8"@
    ||| label == "9"@
    ||| label == "."@
    ||| label == "+"@
    ||| label == "-"@
    ||| label == "*"@
    ||| label == "/"@
}

/// Law of the error state: with a label drawn from the keypad, and an
/// evaluator whose formatted answers are never the literal `"Error"`, the
/// display reads `"Error"` only when `"="` was pressed and evaluation
/// failed.  In particular `"C"` and the appending keys never produce the
/// error state, and each of them leaves it.
pub proof fn lemma_error_only_from_failed_evaluation(
    label: Seq<char>,
    display: Seq<char>,
    eval: Option<Seq<char>>,
)
    requires
        is_button_label(label),
        eval matches Some(v) ==> v != "Error"@,
    ensures
        press_spec(label, display, eval) == "Error"@ ==> label == "="@ && eval is None,
{
    reveal_strlit("C");
    reveal_strlit("=");
    reveal_strlit("0");
    reveal_strlit("1");
    reveal_strlit("2");
    reveal_strlit("3");
    reveal_strlit("4");
    reveal_strlit("5");
    reveal_strlit("6");
    reveal_strlit("7");
    reveal_strlit("8");
    reveal_strlit("9");
    reveal_strlit(".");
    reveal_strlit("+");
    reveal_strlit("-");
    reveal_strlit("*");
    reveal_strlit("/");
    reveal_strlit("Error");
    let r = press_spec(label, display, eval);
    if label == "C"@ {
        assert(r.len() == 0);
    } else if label == "="@ {
    } else {
        assert(label.len() == 1);
        if display == "Error"@ {
            assert(r.len() == 1);
        } else if r == "Error"@ {
            assert(r.len() == 5);
            assert(display.len() == 4);
            assert(r[4] == label[0]);
            assert(("Error"@)[4] == 'r');
            assert(label[0] != 'r');
            assert(false);
        }
    }
}

/// A click on `zone_id` can be routed: the zone exists, its owner is an
/// actionable widget, and the unique display widget resolves.
pub open spec fn click_resolves(w: UiWorld, zone_id: u64) -> bool {
    &&& w.has_zone(zone_id)
    &&& w.has_widget(w.zone_at(zone_id).owner)
    &&& w.widget_at(w.zone_at(zone_id).owner).action is Some
    &&& w.resolves_display()
}

/// The pending click on `zone_id` needs the external evaluator's help: it
/// resolves, and the clicked label is `"="`.
pub open spec fn needs_evaluation(w: UiWorld, zone_id: u64) -> bool {
    &&& click_resolves(w, zone_id)
    &&& w.widget_at(w.zone_at(zone_id).owner).record.text@ == "="@
}

/// Tells the shell what a click on `zone_id` needs evaluated: the display
/// buffer's current text when the click resolves to the `"="` key, nothing
/// otherwise.  The shell evaluates the expression and hands the outcome to
/// the click routing.
pub fn evaluation_request(world: &UiWorld, zone_id: u64) -> (r: Option<String>)
    requires
        world.wf(),
    ensures
        r matches Some(e) ==> needs_evaluation(*world, zone_id) && e@
            == world.widgets@[world.display_index()].record.text@,
        r is None ==> !needs_evaluation(*world, zone_id),
{
    let zidx = match world.find_zone_index(zone_id) {
        Some(z) => z,
        None => {
            return None;
        },
    };
    let owner = world.zones[zidx].owner;
    let widx = match world.find_widget_index(owner) {
        Some(i) => i,
        None => {
            return None;
        },
    };
    if world.widgets[widx].action.is_none() {
        return None;
    }
    if !str_eq(world.widgets[widx].record.text.as_str(), "=") {
        return None;
    }
    let didx = match world.find_display_index() {
        Some(d) => d,
        None => {
            return None;
        },
    };
    Some(world.widgets[didx].record.text.clone())
}

/// How one click changes the world, given the evaluator's answer `eval` for
/// the display buffer: when the click resolves, the display widget's text
/// takes one calculator transition on the clicked widget's label and the
/// display is marked changed; everything else stays.  A click that does not
/// resolve is dropped silently and the world is untouched.
pub open spec fn click_rel(
    pre: UiWorld,
    post: UiWorld,
    zone_id: u64,
    eval: Option<Seq<char>>,
) -> bool {
    if click_resolves(pre, zone_id) {
        let label = pre.widget_at(pre.zone_at(zone_id).owner).record.text@;
        let d = pre.display_index();
        let dw = pre.widgets@[d];
        &&& post.widgets@.len() == pre.widgets@.len()
        &&& forall|j: int| #![trigger post.widgets@[j]]
            0 <= j < pre.widgets@.len() && j != d ==> post.widgets@[j] == pre.widgets@[j]
        &&& post.widgets@[d].id == dw.id
        &&& post.widgets@[d].record.text@ == press_spec(label, dw.record.text@, eval)
        &&& post.widgets@[d].record.image == dw.record.image
        &&& post.widgets@[d].record.variant_flag == dw.record.variant_flag
        &&& post.widgets@[d].action == dw.action
        &&& post.widgets@[d].display == dw.display
        &&& post.widgets@[d].layout_pos == dw.layout_pos
        &&& post.widgets@[d].layout_size == dw.layout_size
        &&& post.widgets@[d].changed == true
        &&& post.widgets@[d].subtree == dw.subtree
        &&& post.backgrounds@ == pre.backgrounds@
        &&& post.texts@ == pre.texts@
        &&& post.zones@ == pre.zones@
        &&& post.next_id == pre.next_id
    } else {
        post == pre
    }
}

/// Routes one click event: resolves the zone to its owning actionable
/// widget, resolves the unique display widget, and applies the calculator
/// transition to the display's text.  `eval` is the external evaluator's
/// answer for the display buffer, obtained through [`evaluation_request`];
/// it is consulted only when the clicked label is `"="`.  Every resolution
/// failure drops the event without touching the world.
pub fn action_observer(world: &mut UiWorld, zone_id: u64, eval: Option<String>)
    requires
        old(world).wf(),
    ensures
        final(world).wf(),
        click_rel(*old(world), *final(world), zone_id, eval.deep_view()),
{
    let zidx = match world.find_zone_index(zone_id) {
        Some(z) => z,
        None => {
            return ;
        },
    };
    let owner = world.zones[zidx].owner;
    let widx = match world.find_widget_index(owner) {
        Some(i) => i,
        None => {
            return ;
        },
    };
    if world.widgets[widx].action.is_none() {
        return ;
    }
    let didx = match world.find_display_index() {
        Some(d) => d,
        None => {
            return ;
        },
    };
    let label = world.widgets[widx].record.text.clone();
    let new_text = press(label.as_str(), world.widgets[didx].record.text.as_str(), eval);
    let dw = &world.widgets[didx];
    let neww = Widget {
        id: dw.id,
        record: MyButton {
            text: new_text,
            image: dw.record.image.clone(),
            variant_flag: dw.record.variant_flag,
        },
        action: dw.action,
        display: dw.display,
        layout_pos: dw.layout_pos,
        layout_size: dw.layout_size,
        changed: true,
        subtree: dw.subtree,
    };
    world.widgets.set(didx, neww);
}

/// How one enter or leave event changes the world: the hover animators of
/// every element expanded from the zone's owner flip to `enable` in
/// lockstep; all other elements, and everything else, stay.  An event naming
/// an unknown zone is dropped silently.
pub open spec fn hover_rel(pre: UiWorld, post: UiWorld, zone_id: u64, enable: bool) -> bool {
    if pre.has_zone(zone_id) {
        let owner = pre.zone_at(zone_id).owner;
        &&& post.widgets@ == pre.widgets@
        &&& post.backgrounds@.len() == pre.backgrounds@.len()
        &&& forall|i: int| #![trigger post.backgrounds@[i]]
            0 <= i < pre.backgrounds@.len() ==> post.backgrounds@[i] == (Background {
                hover: (HoverAnimator {
                    hovered: if pre.backgrounds@[i].owner == owner {
                        enable
                    } else {
                        pre.backgrounds@[i].hover.hovered
                    },
                    ..pre.backgrounds@[i].hover
                }),
                ..pre.backgrounds@[i]
            })
        &&& post.texts@.len() == pre.texts@.len()
        &&& forall|i: int| #![trigger post.texts@[i]]
            0 <= i < pre.texts@.len() ==> post.texts@[i] == (TextElement {
                hover: (HoverAnimator {
                    hovered: if pre.texts@[i].pipe.0 == owner {
                        enable
                    } else {
                        pre.texts@[i].hover.hovered
                    },
                    ..pre.texts@[i].hover
                }),
                ..pre.texts@[i]
            })
        &&& post.zones@ == pre.zones@
        &&& post.next_id == pre.next_id
    } else {
        post == pre
    }
}

/// Drives the hover animators for one enter (`enable`) or leave (`!enable`)
/// event on `zone_id`: the zone's background and text siblings transition
/// together.  An unknown zone drops the event.
pub fn apply_hover(world: &mut UiWorld, zone_id: u64, enable: bool)
    requires
        old(world).wf(),
    ensures
        final(world).wf(),
        hover_rel(*old(world), *final(world), zone_id, enable),
{
    let zidx = match world.find_zone_index(zone_id) {
        Some(z) => z,
        None => {
            return ;
        },
    };
    let owner = world.zones[zidx].owner;
    let mut i: usize = 0;
    while i < world.backgrounds.len()
        invariant
            world.wf(),
            world.widgets@ == old(world).widgets@,
            world.texts@ == old(world).texts@,
            world.zones@ == old(world).zones@,
            world.next_id == old(world).next_id,
            world.backgrounds@.len() == old(world).backgrounds@.len(),
            i <= world.backgrounds@.len(),
            forall|k: int| #![trigger world.backgrounds@[k]]
                0 <= k < i ==> world.backgrounds@[k] == (Background {
                    hover: (HoverAnimator {
                        hovered: if old(world).backgrounds@[k].owner == owner {
                            enable
                        } else {
                            old(world).backgrounds@[k].hover.hovered
                        },
                        ..old(world).backgrounds@[k].hover
                    }),
                    ..old(world).backgrounds@[k]
                }),
            forall|k: int| #![trigger world.backgrounds@[k]]
                i <= k < world.backgrounds@.len() ==> world.backgrounds@[k] == old(
                    world,
                ).backgrounds@[k],
        decreases world.backgrounds@.len() - i,
    {
        let bg = &world.backgrounds[i];
        let newbg = Background {
            id: bg.id,
            owner: bg.owner,
            image: bg.image.clone(),
            base_color: bg.base_color,
            hover_color: bg.hover_color,
            hover: HoverAnimator {
                hovered: if bg.owner == owner {
                    enable
                } else {
                    bg.hover.hovered
                },
                forward_speed: bg.hover.forward_speed,
                backward_speed: bg.hover.backward_speed,
                instant: bg.hover.instant,
                enlarge: bg.hover.enlarge,
            },
            slice_border: bg.slice_border,
        };
        world.backgrounds.set(i, newbg);
        i = i + 1;
    }
    let mut t: usize = 0;
    while t < world.texts.len()
        invariant
            world.wf(),
            world.widgets@ == old(world).widgets@,
            world.zones@ == old(world).zones@,
            world.next_id == old(world).next_id,
            world.backgrounds@.len() == old(world).backgrounds@.len(),
            forall|k: int| #![trigger world.backgrounds@[k]]
                0 <= k < world.backgrounds@.len() ==> world.backgrounds@[k] == (Background {
                    hover: (HoverAnimator {
                        hovered: if old(world).backgrounds@[k].owner == owner {
                            enable
                        } else {
                            old(world).backgrounds@[k].hover.hovered
                        },
                        ..old(world).backgrounds@[k].hover
                    }),
                    ..old(world).backgrounds@[k]
                }),
            world.texts@.len() == old(world).texts@.len(),
            t <= world.texts@.len(),
            forall|k: int| #![trigger world.texts@[k]]
                0 <= k < t ==> world.texts@[k] == (TextElement {
                    hover: (HoverAnimator {
                        hovered: if old(world).texts@[k].pipe.0 == owner {
                            enable
                        } else {
                            old(world).texts@[k].hover.hovered
                        },
                        ..old(world).texts@[k].hover
                    }),
                    ..old(world).texts@[k]
                }),
            forall|k: int| #![trigger world.texts@[k]]
                t <= k < world.texts@.len() ==> world.texts@[k] == old(world).texts@[k],
        decreases world.texts@.len() - t,
    {
        let te = &world.texts[t];
        let newt = TextElement {
            id: te.id,
            content: te.content.clone(),
            pipe: te.pipe,
            base_color: te.base_color,
            hover_color: te.hover_color,
            hover: HoverAnimator {
                hovered: if te.pipe.0 == owner {
                    enable
                } else {
                    te.hover.hovered
                },
                forward_speed: te.hover.forward_speed,
                backward_speed: te.hover.backward_speed,
                instant: te.hover.instant,
                enlarge: te.hover.enlarge,
            },
        };
        world.texts.set(t, newt);
        t = t + 1;
    }
}

/// The kinds of discrete pointer events the input source delivers.
#[derive(Clone, Copy, Debug, PartialEq, Eq, Structural)]
pub enum PointerKind {
    Enter,
    Leave,
    Click,
}

/// One discrete pointer event aimed at a hit-test zone.
#[derive(Clone, Copy, Debug, PartialEq, Eq, Structural)]
pub struct PointerEvent {
    pub kind: PointerKind,
    pub zone_id: u64,
}

/// Dispatches one pointer event: enter and leave drive the hover animators,
/// a click routes to the calculator with the evaluator's answer `eval` (see
/// [`evaluation_request`]; ignored by enter and leave).  Unresolved zones
/// drop the event.
pub fn pointer_event(world: &mut UiWorld, ev: &PointerEvent, eval: Option<String>)
    requires
        old(world).wf(),
    ensures
        final(world).wf(),
        ev.kind is Enter ==> hover_rel(*old(world), *final(world), ev.zone_id, true),
        ev.kind is Leave ==> hover_rel(*old(world), *final(world), ev.zone_id, false),
        ev.kind is Click ==> click_rel(*old(world), *final(world), ev.zone_id, eval.deep_view()),
{
    match ev.kind {
        PointerKind::Enter => apply_hover(world, ev.zone_id, true),
        PointerKind::Leave => apply_hover(world, ev.zone_id, false),
        PointerKind::Click => action_observer(world, ev.zone_id, eval),
    }
}

} // verus!
