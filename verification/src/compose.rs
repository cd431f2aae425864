//! Composition and synchronization passes.
//!
//! [`spawn_observer`] runs when a [`MyButton`] record has just been attached
//! to an entity: it expands the record exactly once into a background, a
//! centered text element and a hit-test zone, wires the hover animators, and
//! records the subtree on the widget.  An idempotency guard keyed by the
//! widget's identity makes a second trigger a no-op.
//!
//! [`TextPipe::system`] runs once per update cycle and copies the text of
//! every changed widget into the text elements piped to it, consuming the
//! change flags.  It never fires on first creation: creation installs the
//! initial text itself and leaves the change flag clear.

use vstd::prelude::*;

use crate::widget::{BevypunkColorPalette, ColorSpec, HoverAnimator, MyButton};
use crate::world::{Background, CompositeSubtree, HitZone, TextElement, TextPipe, UiWorld, Widget};

verus! {

/// Base color of a freshly spawned background: dimmed red.
pub open spec fn background_base_color() -> ColorSpec {
    ColorSpec { red: 1000, green: 384, blue: 318, alpha: 400 }
}

/// Hover color of a background: yellow, driven above one whole for bloom.
pub open spec fn background_hover_color() -> ColorSpec {
    ColorSpec { red: 988, green: 886, blue: 31, alpha: 1200 }
}

/// Base color of a text element: full red.
pub open spec fn text_base_color() -> ColorSpec {
    ColorSpec { red: 1000, green: 384, blue: 318, alpha: 1000 }
}

/// Hover color of a text element: blue, driven above one whole.
pub open spec fn text_hover_color() -> ColorSpec {
    ColorSpec { red: 31, green: 886, blue: 988, alpha: 1200 }
}

/// What one composition step adds for the widget with identity `id`: three
/// fresh elements (a background bound to the record's image, a text element
/// bound to the record's text and piped back to the widget, a hit-test zone
/// owned by the widget), hover animators in lockstep with the enlargement
/// taken from the record's variant flag, and the subtree recorded on the
/// widget.
pub open spec fn composed_rel(pre: UiWorld, post: UiWorld, id: u64) -> bool {
    let i = pre.widget_index(id);
    let w = pre.widgets@[i];
    let b = pre.next_id;
    &&& post.next_id == pre.next_id + 3
    &&& post.widgets@ == pre.widgets@.update(
        i,
        (Widget {
            subtree: Some(
                CompositeSubtree {
                    background_id: b,
                    text_id: (b + 1) as u64,
                    zone_id: (b + 2) as u64,
                },
            ),
            ..w
        }),
    )
    &&& post.backgrounds@ == pre.backgrounds@.push(
        (Background {
            id: b,
            owner: id,
            image: w.record.image,
            base_color: background_base_color(),
            hover_color: background_hover_color(),
            hover: (HoverAnimator {
                hovered: false,
                forward_speed: 20,
                backward_speed: 5,
                instant: false,
                enlarge: w.record.variant_flag,
            }),
            slice_border: 32,
        }),
    )
    &&& post.texts@ == pre.texts@.push(
        (TextElement {
            id: (b + 1) as u64,
            content: w.record.text,
            pipe: TextPipe(id),
            base_color: text_base_color(),
            hover_color: text_hover_color(),
            hover: (HoverAnimator {
                hovered: false,
                forward_speed: 20,
                backward_speed: 5,
                instant: true,
                enlarge: w.record.variant_flag,
            }),
        }),
    )
    &&& post.zones@ == pre.zones@.push((HitZone { id: (b + 2) as u64, owner: id }))
}

/// How one composition trigger changes the world: a missing widget or an
/// already-built subtree leaves the world untouched; otherwise the subtree
/// is expanded as [`composed_rel`] says.
pub open spec fn spawn_observer_rel(pre: UiWorld, post: UiWorld, id: u64) -> bool {
    if pre.has_widget(id) && pre.widget_at(id).subtree is None {
        composed_rel(pre, post, id)
    } else {
        post == pre
    }
}

/// Expands the widget with identity `entity` into its visual subtree, once.
///
/// Triggered when a [`MyButton`] record has just been attached.  If the
/// entity carries no record, or its subtree was already built, nothing
/// happens: re-triggering construction is a no-op by design.
pub fn spawn_observer(world: &mut UiWorld, entity: u64)
    requires
        old(world).wf(),
        old(world).has_widget(entity) && old(world).widget_at(entity).subtree is None
            ==> old(world).next_id <= u64::MAX - 3,
    ensures
        final(world).wf(),
        spawn_observer_rel(*old(world), *final(world), entity),
{
    let widx = match world.find_widget_index(entity) {
        Some(i) => i,
        None => {
            return ;
        },
    };
    if world.widgets[widx].subtree.is_some() {
        return ;
    }
    let b = world.next_id;
    compose_widget(world, entity, widx, b);
}

/// The expansion step of [`spawn_observer`], after the guard has admitted
/// the widget at index `widx` with identity `entity` and `b` names the next
/// fresh identity.
fn compose_widget(world: &mut UiWorld, entity: u64, widx: usize, b: u64)
    requires
        old(world).wf(),
        old(world).next_id == b,
        b <= u64::MAX - 3,
        widx < old(world).widgets@.len(),
        old(world).widgets@[widx as int].id == entity,
        old(world).widgets@[widx as int].subtree is None,
    ensures
        final(world).wf(),
        composed_rel(*old(world), *final(world), entity),
{
    proof {
        assert(old(world).has_widget(entity));
        let j = old(world).widget_index(entity);
        assert(old(world).widgets@[j].id == entity);
        if j != widx as int {
            assert(old(world).widgets@[j].id != old(world).widgets@[widx as int].id);
        }
    }
    world.next_id = b + 3;
    let variant = world.widgets[widx].record.variant_flag;
    let image = world.widgets[widx].record.image.clone();
    let text = world.widgets[widx].record.text.clone();
    world.backgrounds.push(
        Background {
            id: b,
            owner: entity,
            image,
            base_color: ColorSpec::bevypunk_red().with_alpha(400),
            hover_color: ColorSpec::bevypunk_yellow().with_alpha(1200),
            hover: HoverAnimator {
                hovered: false,
                forward_speed: 20,
                backward_speed: 5,
                instant: false,
                enlarge: variant,
            },
            slice_border: 32,
        },
    );
    world.texts.push(
        TextElement {
            id: b + 1,
            content: text,
            pipe: TextPipe(entity),
            base_color: ColorSpec::bevypunk_red(),
            hover_color: ColorSpec::bevypunk_blue().with_alpha(1200),
            hover: HoverAnimator {
                hovered: false,
                forward_speed: 20,
                backward_speed: 5,
                instant: true,
                enlarge: variant,
            },
        },
    );
    world.zones.push(HitZone { id: b + 2, owner: entity });
    let w = &world.widgets[widx];
    let neww = Widget {
        id: w.id,
        record: MyButton {
            text: w.record.text.clone(),
            image: w.record.image.clone(),
            variant_flag: w.record.variant_flag,
        },
        action: w.action,
        display: w.display,
        layout_pos: w.layout_pos,
        layout_size: w.layout_size,
        changed: w.changed,
        subtree: Some(
            CompositeSubtree { background_id: b, text_id: b + 1, zone_id: b + 2 },
        ),
    };
    world.widgets.set(widx, neww);
}

/// The content a text element at index `k` shows after one synchronization
/// pass over `pre`: the owning widget's current text when that widget was
/// changed, otherwise the content it already had.  A pipe whose widget no
/// longer exists is skipped silently.
pub open spec fn synced_content(pre: UiWorld, k: int) -> String {
    let t = pre.texts@[k];
    if pre.has_widget(t.pipe.0) && pre.widget_at(t.pipe.0).changed {
        pre.widget_at(t.pipe.0).record.text
    } else {
        t.content
    }
}

/// How one synchronization pass changes the world: every text element shows
/// its [`synced_content`], every change flag is consumed, and nothing else
/// moves.
pub open spec fn sync_rel(pre: UiWorld, post: UiWorld) -> bool {
    &&& post.widgets@.len() == pre.widgets@.len()
    &&& forall|j: int| #![trigger post.widgets@[j]]
        0 <= j < pre.widgets@.len() ==> post.widgets@[j] == (Widget {
            changed: false,
            ..pre.widgets@[j]
        })
    &&& post.texts@.len() == pre.texts@.len()
    &&& forall|k: int| #![trigger post.texts@[k]]
        0 <= k < pre.texts@.len() ==> post.texts@[k] == (TextElement {
            content: synced_content(pre, k),
            ..pre.texts@[k]
        })
    &&& post.backgrounds@ == pre.backgrounds@
    &&& post.zones@ == pre.zones@
    &&& post.next_id == pre.next_id
}

impl TextPipe {
    /// The synchronization pass: runs once per update cycle, after any text
    /// mutation, and copies each changed widget's text into the text
    /// elements piped to it.  Lazy by design: when no widget changed, the
    /// pass returns at once.
    pub fn system(world: &mut UiWorld)
        requires
            old(world).wf(),
        ensures
            final(world).wf(),
            sync_rel(*old(world), *final(world)),
    {
        let mut any_changed = false;
        let mut i: usize = 0;
        while i < world.widgets.len()
            invariant
                i <= world.widgets@.len(),
                !any_changed ==> forall|k: int|
                    0 <= k < i ==> !(#[trigger] world.widgets@[k]).changed,
            decreases world.widgets@.len() - i,
        {
            if world.widgets[i].changed {
                any_changed = true;
            }
            i = i + 1;
        }
        if !any_changed {
            return ;
        }
        let mut t: usize = 0;
        while t < world.texts.len()
            invariant
                world.wf(),
                world.widgets@ == old(world).widgets@,
                world.backgrounds@ == old(world).backgrounds@,
                world.zones@ == old(world).zones@,
                world.next_id == old(world).next_id,
                world.texts@.len() == old(world).texts@.len(),
                t <= world.texts@.len(),
                forall|k: int| #![trigger world.texts@[k]]
                    0 <= k < t ==> world.texts@[k] == (TextElement {
                        content: synced_content(*old(world), k),
                        ..old(world).texts@[k]
                    }),
                forall|k: int| #![trigger world.texts@[k]]
                    t <= k < world.texts@.len() ==> world.texts@[k] == old(world).texts@[k],
            decreases world.texts@.len() - t,
        {
            let pid = world.texts[t].pipe.0;
            match world.find_widget_index(pid) {
                Some(wi) => {
                    if world.widgets[wi].changed {
                        let new_content = world.widgets[wi].record.text.clone();
                        let te = &world.texts[t];
                        let newt = TextElement {
                            id: te.id,
                            content: new_content,
                            pipe: te.pipe,
                            base_color: te.base_color,
                            hover_color: te.hover_color,
                            hover: te.hover,
                        };
                        world.texts.set(t, newt);
                    }
                },
                None => {},
            }
            t = t + 1;
        }
        let mut j: usize = 0;
        while j < world.widgets.len()
            invariant
                world.wf(),
                world.backgrounds@ == old(world).backgrounds@,
                world.zones@ == old(world).zones@,
                world.next_id == old(world).next_id,
                world.widgets@.len() == old(world).widgets@.len(),
                world.texts@.len() == old(world).texts@.len(),
                j <= world.widgets@.len(),
                forall|k: int| #![trigger world.texts@[k]]
                    0 <= k < world.texts@.len() ==> world.texts@[k] == (TextElement {
                        content: synced_content(*old(world), k),
                        ..old(world).texts@[k]
                    }),
                forall|k: int| #![trigger world.widgets@[k]]
                    0 <= k < j ==> world.widgets@[k] == (Widget {
                        changed: false,
                        ..old(world).widgets@[k]
                    }),
                forall|k: int| #![trigger world.widgets@[k]]
                    j <= k < world.widgets@.len() ==> world.widgets@[k] == old(
                        world,
                    ).widgets@[k],
            decreases world.widgets@.len() - j,
        {
            let w = &world.widgets[j];
            let neww = Widget {
                id: w.id,
                record: MyButton {
                    text: w.record.text.clone(),
                    image: w.record.image.clone(),
                    variant_flag: w.record.variant_flag,
                },
                action: w.action,
                display: w.display,
                layout_pos: w.layout_pos,
                layout_size: w.layout_size,
                changed: false,
                subtree: w.subtree,
            };
            world.widgets.set(j, neww);
            j = j + 1;
        }
    }
}

/// Plugin installing the button logic: building it yields the fresh world
/// that the composition, synchronization and routing passes run in.
pub struct ButtonPlugin;

impl ButtonPlugin {
    /// Creates the empty world the passes operate on.
    pub fn build(&self) -> (w: UiWorld)
        ensures
            w.wf(),
            w.widgets@.len() == 0,
            w.backgrounds@.len() == 0,
            w.texts@.len() == 0,
            w.zones@.len() == 0,
            w.next_id == 0,
    {
        UiWorld::new()
    }
}

/// Law of idempotent construction: triggering the composition twice for the
/// same identity yields exactly one composite subtree.  The second trigger
/// leaves the world exactly as the first left it, so no duplicate elements
/// appear: after the two triggers the element arenas have grown by at most
/// one entry each.
pub proof fn lemma_composition_idempotent(w0: UiWorld, w1: UiWorld, w2: UiWorld, id: u64)
    requires
        w0.wf(),
        spawn_observer_rel(w0, w1, id),
        spawn_observer_rel(w1, w2, id),
    ensures
        w2 == w1,
        w0.has_widget(id) && w0.widget_at(id).subtree is None ==> {
            &&& w2.backgrounds@.len() == w0.backgrounds@.len() + 1
            &&& w2.texts@.len() == w0.texts@.len() + 1
            &&& w2.zones@.len() == w0.zones@.len() + 1
            &&& w2.widget_at(id).subtree is Some
        },
{
    if w0.has_widget(id) && w0.widget_at(id).subtree is None {
        let i = w0.widget_index(id);
        assert(0 <= i < w0.widgets@.len() && w0.widgets@[i].id == id);
        assert(w1.widgets@[i].id == id);
        assert(w1.has_widget(id));
        let i1 = w1.widget_index(id);
        assert(w1.widgets@[i1].id == id);
        if i1 != i {
            assert(w1.widgets@[i1] == w0.widgets@[i1]);
            assert(w0.widgets@[i1].id == w0.widgets@[i].id);
            assert(false);
        }
        assert(w1.widget_at(id).subtree is Some);
        assert(w2 == w1);
    } else {
        assert(w1 == w0);
        assert(w2 == w1);
    }
}

/// Settling is idempotent in effect: when no widget is marked changed, a
/// synchronization pass leaves every text element's content as it was, so
/// running the pass again after settling shows no new state.
pub proof fn lemma_sync_settled(pre: UiWorld, post: UiWorld)
    requires
        sync_rel(pre, post),
        forall|j: int| 0 <= j < pre.widgets@.len() ==> !(#[trigger] pre.widgets@[j]).changed,
    ensures
        forall|k: int|
            0 <= k < pre.texts@.len() ==> (#[trigger] post.texts@[k]).content
                == pre.texts@[k].content,
{
    assert forall|k: int| 0 <= k < pre.texts@.len() implies (#[trigger] post.texts@[k]).content
        == pre.texts@[k].content by {
        if pre.has_widget(pre.texts@[k].pipe.0) {
            let i = pre.widget_index(pre.texts@[k].pipe.0);
            assert(!pre.widgets@[i].changed);
        }
    }
}

/// Law of last-write-wins synchronization: writing a widget's text twice
/// and then letting the synchronization pass settle leaves every text
/// element piped to that widget showing the second value, with no stale
/// intermediate state.
pub proof fn lemma_sync_last_write_wins(
    w0: UiWorld,
    w1: UiWorld,
    w2: UiWorld,
    w3: UiWorld,
    id: u64,
    s1: String,
    s2: String,
    k: int,
)
    requires
        w0.wf(),
        w0.has_widget(id),
        0 <= k < w0.texts@.len(),
        w0.texts@[k].pipe.0 == id,
        crate::world::set_text_rel(w0, w1, id, s1),
        crate::world::set_text_rel(w1, w2, id, s2),
        sync_rel(w2, w3),
    ensures
        w3.texts@[k].content == s2,
{
    let i0 = w0.widget_index(id);
    assert(0 <= i0 < w0.widgets@.len() && w0.widgets@[i0].id == id);
    assert(w1.widgets@[i0].id == id);
    assert(w1.has_widget(id));
    let i1 = w1.widget_index(id);
    assert(w1.widgets@[i1].id == id);
    if i1 != i0 {
        assert(w1.widgets@[i1] == w0.widgets@[i1]);
        assert(w0.widgets@[i1].id == w0.widgets@[i0].id);
        assert(false);
    }
    assert(w2.widgets@[i0].record.text == s2);
    assert(w2.widgets@[i0].changed);
    assert(w2.texts@[k] == w0.texts@[k]);
    assert(w2.has_widget(id));
    let i2 = w2.widget_index(id);
    assert(w2.widgets@[i2].id == id);
    if i2 != i0 {
        assert(w2.widgets@[i2] == w1.widgets@[i2]);
        assert(w1.widgets@[i2].id == w1.widgets@[i1].id);
        assert(w1.wf()) by {
            assert(forall|a: int, b: int|
                0 <= a < b < w1.widgets@.len() ==> w1.widgets@[a].id != w1.widgets@[b].id) by {
                assert forall|a: int, b: int|
                    0 <= a < b < w1.widgets@.len() implies w1.widgets@[a].id
                    != w1.widgets@[b].id by {
                    assert(w1.widgets@[a].id == w0.widgets@[a].id);
                    assert(w1.widgets@[b].id == w0.widgets@[b].id);
                }
            }
        }
        assert(false);
    }
    assert(synced_content(w2, k) == w2.widgets@[i0].record.text);
    assert(w3.texts@[k].content == s2);
}

} // verus!
