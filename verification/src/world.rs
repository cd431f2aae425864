//! The retained widget world: every entity the calculator skin owns.
//!
//! Identities are plain numbers drawn from one counter.  A [`Widget`] holds
//! the declarative [`MyButton`] record together with its markers and grid
//! placement; the composition pass expands it into one [`Background`], one
//! [`TextElement`] and one [`HitZone`], recorded on the widget as its
//! [`CompositeSubtree`].  All update passes run single-threaded inside one
//! frame, so plain mutation is enough.

use vstd::prelude::*;

use crate::grid::GridPoint;
use crate::widget::{ActionButton, ColorSpec, DisplayField, HoverAnimator, ImageHandle, MyButton};

verus! {

/// Back-reference from a detached text element to the widget whose text it
/// mirrors.
#[derive(Clone, Copy, Debug, PartialEq, Eq, Structural)]
pub struct TextPipe(pub u64);

/// The identities of the three visual elements expanded from one widget.
/// Built exactly once per widget and never rebuilt.
#[derive(Clone, Copy, Debug, PartialEq, Eq, Structural)]
pub struct CompositeSubtree {
    pub background_id: u64,
    pub text_id: u64,
    pub zone_id: u64,
}

/// A background visual element: fills its parent, shows the sliced image,
/// and animates between a base and a hover color.
#[derive(Debug)]
pub struct Background {
    pub id: u64,
    /// The widget entity this element was expanded from.
    pub owner: u64,
    pub image: ImageHandle,
    pub base_color: ColorSpec,
    pub hover_color: ColorSpec,
    pub hover: HoverAnimator,
    /// Border width kept rigid when the image is slice-scaled; the center
    /// stretches.
    pub slice_border: u16,
}

/// A text element centered in its parent.  `pipe` names the widget whose
/// record text this element displays.
#[derive(Debug)]
pub struct TextElement {
    pub id: u64,
    pub content: String,
    pub pipe: TextPipe,
    pub base_color: ColorSpec,
    pub hover_color: ColorSpec,
    pub hover: HoverAnimator,
}

/// The invisible interactive area receiving pointer events on behalf of a
/// composite widget.  The sibling elements never intercept events.
#[derive(Clone, Copy, Debug, PartialEq, Eq, Structural)]
pub struct HitZone {
    pub id: u64,
    pub owner: u64,
}

/// One widget entity: the record, its markers, its grid placement, the
/// change flag driving text synchronization, and the expanded subtree once
/// the composition pass has run.
#[derive(Debug)]
pub struct Widget {
    pub id: u64,
    pub record: MyButton,
    pub action: Option<ActionButton>,
    pub display: Option<DisplayField>,
    pub layout_pos: GridPoint,
    pub layout_size: GridPoint,
    /// Set when the record's text is mutated after creation; consumed by the
    /// synchronization pass.  Never set by creation itself.
    pub changed: bool,
    pub subtree: Option<CompositeSubtree>,
}

/// A widget that holds the calculator's display buffer: tagged as the
/// display and never actionable.
pub open spec fn is_display_widget(w: Widget) -> bool {
    w.display is Some && w.action is None
}

/// The whole retained world.
#[derive(Debug)]
pub struct UiWorld {
    pub widgets: Vec<Widget>,
    pub backgrounds: Vec<Background>,
    pub texts: Vec<TextElement>,
    pub zones: Vec<HitZone>,
    /// Next unused identity; every identity in the world lies below it.
    pub next_id: u64,
}

impl UiWorld {
    /// Identities are unique per kind and all lie below `next_id`, so a
    /// fresh identity can never collide.
    pub open spec fn wf(self) -> bool {
        &&& forall|i: int, j: int|
            #![trigger self.widgets@[i].id, self.widgets@[j].id]
            0 <= i < j < self.widgets@.len() ==> self.widgets@[i].id != self.widgets@[j].id
        &&& forall|i: int| #![trigger self.widgets@[i]]
            0 <= i < self.widgets@.len() ==> self.widgets@[i].id < self.next_id
        &&& forall|i: int, j: int|
            #![trigger self.backgrounds@[i].id, self.backgrounds@[j].id]
            0 <= i < j < self.backgrounds@.len() ==> self.backgrounds@[i].id
                != self.backgrounds@[j].id
        &&& forall|i: int| #![trigger self.backgrounds@[i]]
            0 <= i < self.backgrounds@.len() ==> self.backgrounds@[i].id < self.next_id
        &&& forall|i: int, j: int|
            #![trigger self.texts@[i].id, self.texts@[j].id]
            0 <= i < j < self.texts@.len() ==> self.texts@[i].id != self.texts@[j].id
        &&& forall|i: int| #![trigger self.texts@[i]]
            0 <= i < self.texts@.len() ==> self.texts@[i].id < self.next_id
        &&& forall|i: int, j: int|
            #![trigger self.zones@[i].id, self.zones@[j].id]
            0 <= i < j < self.zones@.len() ==> self.zones@[i].id != self.zones@[j].id
        &&& forall|i: int| #![trigger self.zones@[i]]
            0 <= i < self.zones@.len() ==> self.zones@[i].id < self.next_id
    }

    pub open spec fn has_widget(self, id: u64) -> bool {
        exists|i: int| 0 <= i < self.widgets@.len() && self.widgets@[i].id == id
    }

    /// Index of the widget with identity `id`; under `wf` it is unique.
    pub open spec fn widget_index(self, id: u64) -> int {
        choose|i: int| 0 <= i < self.widgets@.len() && self.widgets@[i].id == id
    }

    pub open spec fn widget_at(self, id: u64) -> Widget {
        self.widgets@[self.widget_index(id)]
    }

    pub open spec fn has_zone(self, id: u64) -> bool {
        exists|i: int| 0 <= i < self.zones@.len() && self.zones@[i].id == id
    }

    pub open spec fn zone_index(self, id: u64) -> int {
        choose|i: int| 0 <= i < self.zones@.len() && self.zones@[i].id == id
    }

    pub open spec fn zone_at(self, id: u64) -> HitZone {
        self.zones@[self.zone_index(id)]
    }

    /// The unique-display lookup succeeds: exactly one widget is tagged as
    /// the display.
    pub open spec fn resolves_display(self) -> bool {
        exists|i: int|
            {
                &&& 0 <= i < self.widgets@.len()
                &&& is_display_widget(self.widgets@[i])
                &&& forall|j: int|
                    0 <= j < self.widgets@.len() && j != i ==> !is_display_widget(
                        #[trigger] self.widgets@[j],
                    )
            }
    }

    /// Index of the unique display widget, when `resolves_display` holds.
    pub open spec fn display_index(self) -> int {
        choose|i: int|
            {
                &&& 0 <= i < self.widgets@.len()
                &&& is_display_widget(self.widgets@[i])
                &&& forall|j: int|
                    0 <= j < self.widgets@.len() && j != i ==> !is_display_widget(
                        #[trigger] self.widgets@[j],
                    )
            }
    }

    /// An empty world: no entities, the identity counter at zero.
    pub fn new() -> (w: UiWorld)
        ensures
            w.wf(),
            w.widgets@ == Seq::<Widget>::empty(),
            w.backgrounds@ == Seq::<Background>::empty(),
            w.texts@ == Seq::<TextElement>::empty(),
            w.zones@ == Seq::<HitZone>::empty(),
            w.next_id == 0,
    {
        let w = UiWorld {
            widgets: Vec::new(),
            backgrounds: Vec::new(),
            texts: Vec::new(),
            zones: Vec::new(),
            next_id: 0,
        };
        proof {
            assert(w.widgets@ =~= Seq::<Widget>::empty());
            assert(w.backgrounds@ =~= Seq::<Background>::empty());
            assert(w.texts@ =~= Seq::<TextElement>::empty());
            assert(w.zones@ =~= Seq::<HitZone>::empty());
        }
        w
    }

    /// Index of the widget with identity `id`, scanning the arena.
    pub fn find_widget_index(&self, id: u64) -> (r: Option<usize>)
        requires
            self.wf(),
        ensures
            match r {
                Some(i) => {
                    &&& i < self.widgets@.len()
                    &&& self.widgets@[i as int].id == id
                    &&& self.has_widget(id)
                    &&& self.widget_index(id) == i as int
                },
                None => !self.has_widget(id),
            },
    {
        let mut i: usize = 0;
        while i < self.widgets.len()
            invariant
                self.wf(),
                i <= self.widgets@.len(),
                forall|k: int| 0 <= k < i ==> (#[trigger] self.widgets@[k]).id != id,
            decreases self.widgets@.len() - i,
        {
            if self.widgets[i].id == id {
                proof {
                    assert(self.has_widget(id));
                    let j = self.widget_index(id);
                    assert(self.widgets@[j].id == id);
                    if j != i as int {
                        assert(self.widgets@[j].id != self.widgets@[i as int].id);
                    }
                }
                return Some(i);
            }
            i = i + 1;
        }
        None
    }

    /// Index of the zone with identity `id`.
    pub fn find_zone_index(&self, id: u64) -> (r: Option<usize>)
        requires
            self.wf(),
        ensures
            match r {
                Some(i) => {
                    &&& i < self.zones@.len()
                    &&& self.zones@[i as int].id == id
                    &&& self.has_zone(id)
                    &&& self.zone_index(id) == i as int
                },
                None => !self.has_zone(id),
            },
    {
        let mut i: usize = 0;
        while i < self.zones.len()
            invariant
                self.wf(),
                i <= self.zones@.len(),
                forall|k: int| 0 <= k < i ==> (#[trigger] self.zones@[k]).id != id,
            decreases self.zones@.len() - i,
        {
            if self.zones[i].id == id {
                proof {
                    assert(self.has_zone(id));
                    let j = self.zone_index(id);
                    assert(self.zones@[j].id == id);
                    if j != i as int {
                        assert(self.zones@[j].id != self.zones@[i as int].id);
                    }
                }
                return Some(i);
            }
            i = i + 1;
        }
        None
    }

    /// The unique-display lookup: the index of the single widget tagged as
    /// the display, or `None` when none or several are.
    pub fn find_display_index(&self) -> (r: Option<usize>)
        ensures
            match r {
                Some(i) => {
                    &&& i < self.widgets@.len()
                    &&& is_display_widget(self.widgets@[i as int])
                    &&& self.resolves_display()
                    &&& self.display_index() == i as int
                },
                None => !self.resolves_display(),
            },
    {
        let mut found: Option<usize> = None;
        let mut i: usize = 0;
        while i < self.widgets.len()
            invariant
                i <= self.widgets@.len(),
                match found {
                    Some(f) => {
                        &&& f < i
                        &&& is_display_widget(self.widgets@[f as int])
                        &&& forall|k: int|
                            0 <= k < i && k != f ==> !is_display_widget(
                                #[trigger] self.widgets@[k],
                            )
                    },
                    None => forall|k: int|
                        0 <= k < i ==> !is_display_widget(#[trigger] self.widgets@[k]),
                },
            decreases self.widgets@.len() - i,
        {
            let w = &self.widgets[i];
            if w.display.is_some() && w.action.is_none() {
                match found {
                    Some(f) => {
                        proof {
                            let fi = f as int;
                            let ii = i as int;
                            assert forall|c: int|
                                0 <= c < self.widgets@.len() && is_display_widget(
                                    self.widgets@[c],
                                ) implies !(forall|j: int|
                                0 <= j < self.widgets@.len() && j != c ==> !is_display_widget(
                                    #[trigger] self.widgets@[j],
                                )) by {
                                if c != fi {
                                    assert(is_display_widget(self.widgets@[fi]));
                                } else {
                                    assert(is_display_widget(self.widgets@[ii]));
                                }
                            }
                        }
                        return None;
                    },
                    None => {
                        found = Some(i);
                    },
                }
            }
            i = i + 1;
        }
        proof {
            if let Some(f) = found {
                let fi = f as int;
                assert(0 <= fi < self.widgets@.len() && is_display_widget(self.widgets@[fi])
                    && forall|j: int|
                    0 <= j < self.widgets@.len() && j != fi ==> !is_display_widget(
                        #[trigger] self.widgets@[j],
                    ));
                let d = self.display_index();
                if d != fi {
                    assert(!is_display_widget(self.widgets@[d]));
                }
            }
        }
        found
    }

    /// Attaches a new widget entity carrying `record` and its markers at the
    /// given grid placement.  Creation does not count as a text change, and
    /// the composite subtree is not built yet.
    pub fn spawn_widget(
        &mut self,
        record: MyButton,
        action: Option<ActionButton>,
        display: Option<DisplayField>,
        layout_pos: GridPoint,
        layout_size: GridPoint,
    ) -> (id: u64)
        requires
            old(self).wf(),
            old(self).next_id < u64::MAX,
        ensures
            final(self).wf(),
            id == old(self).next_id,
            final(self).next_id == old(self).next_id + 1,
            final(self).widgets@ == old(self).widgets@.push(
                (Widget {
                    id,
                    record,
                    action,
                    display,
                    layout_pos,
                    layout_size,
                    changed: false,
                    subtree: None,
                }),
            ),
            final(self).backgrounds@ == old(self).backgrounds@,
            final(self).texts@ == old(self).texts@,
            final(self).zones@ == old(self).zones@,
            final(self).has_widget(id),
            final(self).widget_index(id) == old(self).widgets@.len(),
    {
        let id = self.next_id;
        self.next_id = self.next_id + 1;
        self.widgets.push(
            Widget {
                id,
                record,
                action,
                display,
                layout_pos,
                layout_size,
                changed: false,
                subtree: None,
            },
        );
        proof {
            let n = self.widgets@.len() - 1;
            assert(self.widgets@[n].id == id);
            assert(self.has_widget(id));
            let j = self.widget_index(id);
            if j != n {
                assert(old(self).widgets@[j].id == id);
            }
        }
        id
    }
}

/// How `set_text` changes the world: when a widget with identity `id`
/// exists, its record's text becomes `text` and the widget is marked
/// changed; nothing else moves.  Without such a widget the world stays as it
/// was.
pub open spec fn set_text_rel(pre: UiWorld, post: UiWorld, id: u64, text: String) -> bool {
    if pre.has_widget(id) {
        let i = pre.widget_index(id);
        let w = pre.widgets@[i];
        post == (UiWorld {
            widgets: post.widgets,
            ..pre
        }) && post.widgets@ == pre.widgets@.update(
            i,
            (Widget {
                record: (MyButton { text, ..w.record }),
                changed: true,
                ..w
            }),
        )
    } else {
        post == pre
    }
}

impl UiWorld {
    /// Mutates the text of the widget with identity `id`, the one write path
    /// the calculator uses.  The change flag set here is what the
    /// synchronization pass later consumes.
    pub fn set_text(&mut self, id: u64, text: String)
        requires
            old(self).wf(),
        ensures
            final(self).wf(),
            set_text_rel(*old(self), *final(self), id, text),
    {
        let widx = match self.find_widget_index(id) {
            Some(i) => i,
            None => {
                return ;
            },
        };
        let w = &self.widgets[widx];
        let neww = Widget {
            id: w.id,
            record: MyButton {
                text,
                image: w.record.image.clone(),
                variant_flag: w.record.variant_flag,
            },
            action: w.action,
            display: w.display,
            layout_pos: w.layout_pos,
            layout_size: w.layout_size,
            changed: true,
            subtree: w.subtree,
        };
        self.widgets.set(widx, neww);
    }
}

} // verus!
