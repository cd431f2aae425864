//! Assembly of the calculator's user interface.
//!
//! Eighteen widgets go onto a four-by-five grid with a five percent gap:
//! the clear button, the display field spanning three columns, and sixteen
//! action buttons row by row.  Each widget is spawned and then composed at
//! once, so construction precedes every pass that consumes the subtree.

use vstd::prelude::*;
use vstd::string::StringExecFns;

use crate::action::str_eq;
use crate::compose::spawn_observer;
use crate::grid::{GridLayout, GridPoint};
use crate::widget::{ActionButton, DisplayField, ImageHandle, MyButton};
use crate::world::{is_display_widget, CompositeSubtree, UiWorld};

verus! {

/// Number of grid columns.
pub const XN: u16 = 4;

/// Number of grid rows.
pub const YN: u16 = 5;

/// Gap between cells, in percent of the container.
pub const GAP: u16 = 5;

/// The calculator's fixed grid.
pub open spec fn calculator_grid() -> GridLayout {
    GridLayout { cols: XN, rows: YN, gap: GAP }
}

/// Builds the calculator's grid; it is well formed by construction.
pub fn grid() -> (g: GridLayout)
    ensures
        g == calculator_grid(),
        g.wf(),
{
    GridLayout { cols: XN, rows: YN, gap: GAP }
}

/// Position of the cell in column `x`, row `y` of the calculator's grid.
pub fn get_pos(x: u16, y: u16) -> (r: GridPoint)
    ensures
        r.x.num == calculator_grid().pos_x_num(x as int),
        r.x.den == XN,
        r.y.num == calculator_grid().pos_y_num(y as int),
        r.y.den == YN,
{
    let g = grid();
    g.get_pos(x, y)
}

/// Size of a span of `colspan` columns and `rowspan` rows of the
/// calculator's grid.
pub fn get_size(colspan: u16, rowspan: u16) -> (r: GridPoint)
    ensures
        r.x.num == calculator_grid().size_x_num(colspan as int),
        r.x.den == XN,
        r.y.num == calculator_grid().size_y_num(rowspan as int),
        r.y.den == YN,
{
    let g = grid();
    g.get_size(colspan, rowspan)
}

/// Label of the `n`-th action button, row by row.
pub open spec fn button_label_spec(n: int) -> Seq<char> {
    if n == 0 {
        "7"@
    } else if n == 1 {
        "8"@
    } else if n == 2 {
        "9"@
    } else if n == 3 {
        "/"@
    } else if n == 4 {
        "4"@
    } else if n == 5 {
        "5"@
    } else if n == 6 {
        "6"@
    } else if n == 7 {
        "*"@
    } else if n == 8 {
        "1"@
    } else if n == 9 {
        "2"@
    } else if n == 10 {
        "3"@
    } else if n == 11 {
        "-"@
    } else if n == 12 {
        "0"@
    } else if n == 13 {
        "."@
    } else if n == 14 {
        "="@
    } else {
        "+"@
    }
}

/// Label of the `n`-th action button.
pub fn button_label(n: usize) -> (r: &'static str)
    requires
        n < 16,
    ensures
        r@ == button_label_spec(n as int),
{
    match n {
        0 => "7",
        1 => "8",
        2 => "9",
        3 => "/",
        4 => "4",
        5 => "5",
        6 => "6",
        7 => "*",
        8 => "1",
        9 => "2",
        10 => "3",
        11 => "-",
        12 => "0",
        13 => ".",
        14 => "=",
        _ => "+",
    }
}

/// Image asset for a button label: the four grid corners use the sliced
/// corner images, every other button the symmetric one.
pub open spec fn button_image_spec(label: Seq<char>) -> Seq<char> {
    if label == "7"@ {
        "images/button_sliced_top_left.png"@
    } else if label == "/"@ {
        "images/button_sliced_top_right.png"@
    } else if label == "0"@ {
        "images/button_sliced_bottom_left.png"@
    } else if label == "+"@ {
        "images/button_sliced_bottom_right.png"@
    } else {
        "images/button_symetric.png"@
    }
}

/// Resolves the image reference for a button label.
pub fn button_image(label: &str) -> (r: ImageHandle)
    ensures
        r.path@ == button_image_spec(label@),
{
    let path = if str_eq(label, "7") {
        "images/button_sliced_top_left.png"
    } else if str_eq(label, "/") {
        "images/button_sliced_top_right.png"
    } else if str_eq(label, "0") {
        "images/button_sliced_bottom_left.png"
    } else if str_eq(label, "+") {
        "images/button_sliced_bottom_right.png"
    } else {
        "images/button_symetric.png"
    };
    ImageHandle { path: String::from_str(path) }
}

/// Label of the `n`-th calculator widget: the clear button, then the empty
/// display, then the sixteen action buttons.
pub open spec fn calc_label(n: int) -> Seq<char> {
    if n == 0 {
        "C"@
    } else if n == 1 {
        Seq::<char>::empty()
    } else {
        button_label_spec(n - 2)
    }
}

/// Image path of the `n`-th calculator widget.
pub open spec fn calc_image(n: int) -> Seq<char> {
    if n <= 1 {
        "images/button_symetric.png"@
    } else {
        button_image_spec(button_label_spec(n - 2))
    }
}

/// Whether the `n`-th calculator widget is actionable; only the display is
/// not.
pub open spec fn calc_actionable(n: int) -> bool {
    n != 1
}

/// Grid column of the `n`-th calculator widget.
pub open spec fn calc_col(n: int) -> int {
    if n == 0 {
        0
    } else if n == 1 {
        1
    } else {
        (n - 2) % (XN as int)
    }
}

/// Grid row of the `n`-th calculator widget.
pub open spec fn calc_row(n: int) -> int {
    if n <= 1 {
        0
    } else {
        (n - 2) / (XN as int) + 1
    }
}

/// Column span of the `n`-th calculator widget; only the display spans
/// three cells.
pub open spec fn calc_colspan(n: int) -> int {
    if n == 1 {
        3
    } else {
        1
    }
}

/// The widget at index `wi` is the `n`-th calculator widget: right record,
/// right markers, right grid placement, composed, and not yet changed.
pub open spec fn calc_widget_ok(w: UiWorld, wi: int, n: int) -> bool {
    let wd = w.widgets@[wi];
    &&& wd.record.text@ == calc_label(n)
    &&& wd.record.image.path@ == calc_image(n)
    &&& wd.record.variant_flag == calc_actionable(n)
    &&& (wd.action is Some <==> calc_actionable(n))
    &&& (wd.display is Some <==> n == 1)
    &&& !wd.changed
    &&& wd.layout_pos.x.num == calculator_grid().pos_x_num(calc_col(n))
    &&& wd.layout_pos.y.num == calculator_grid().pos_y_num(calc_row(n))
    &&& wd.layout_size.x.num == calculator_grid().size_x_num(calc_colspan(n))
    &&& wd.layout_size.y.num == calculator_grid().size_y_num(1)
    &&& wd.subtree is Some
}

/// The widget at index `wi` owns exactly the composite subtree whose
/// elements sit at indices `bi`, `ti` and `zi`: identities match the
/// recorded subtree, every element points back at the widget, the
/// background shows the record's image and the text element the record's
/// text.
pub open spec fn calc_subtree_ok(w: UiWorld, wi: int, bi: int, ti: int, zi: int) -> bool {
    let wd = w.widgets@[wi];
    &&& wd.subtree matches Some(st)
    &&& 0 <= bi < w.backgrounds@.len()
    &&& w.backgrounds@[bi].id == st.background_id
    &&& w.backgrounds@[bi].owner == wd.id
    &&& w.backgrounds@[bi].image == wd.record.image
    &&& w.backgrounds@[bi].hover.enlarge == wd.record.variant_flag
    &&& 0 <= ti < w.texts@.len()
    &&& w.texts@[ti].id == st.text_id
    &&& w.texts@[ti].pipe.0 == wd.id
    &&& w.texts@[ti].content@ == wd.record.text@
    &&& 0 <= zi < w.zones@.len()
    &&& w.zones@[zi].id == st.zone_id
    &&& w.zones@[zi].owner == wd.id
}

/// Spawns one widget carrying `rec` at the given grid placement and
/// composes its subtree on the spot, so the new widget and its three
/// elements sit at the ends of their arenas.
fn spawn_composed(
    world: &mut UiWorld,
    rec: MyButton,
    action: Option<ActionButton>,
    display: Option<DisplayField>,
    pos: GridPoint,
    size: GridPoint,
)
    requires
        old(world).wf(),
        old(world).next_id <= u64::MAX - 4,
    ensures
        final(world).wf(),
        final(world).widgets@.len() == old(world).widgets@.len() + 1,
        final(world).backgrounds@.len() == old(world).backgrounds@.len() + 1,
        final(world).texts@.len() == old(world).texts@.len() + 1,
        final(world).zones@.len() == old(world).zones@.len() + 1,
        final(world).next_id == old(world).next_id + 4,
        forall|j: int| #![trigger final(world).widgets@[j]]
            0 <= j < old(world).widgets@.len() ==> final(world).widgets@[j] == old(
                world,
            ).widgets@[j],
        forall|j: int| #![trigger final(world).backgrounds@[j]]
            0 <= j < old(world).backgrounds@.len() ==> final(world).backgrounds@[j] == old(
                world,
            ).backgrounds@[j],
        forall|j: int| #![trigger final(world).texts@[j]]
            0 <= j < old(world).texts@.len() ==> final(world).texts@[j] == old(world).texts@[j],
        forall|j: int| #![trigger final(world).zones@[j]]
            0 <= j < old(world).zones@.len() ==> final(world).zones@[j] == old(world).zones@[j],
        ({
            let wd = final(world).widgets@[old(world).widgets@.len() as int];
            &&& wd.id == old(world).next_id
            &&& wd.record == rec
            &&& wd.action == action
            &&& wd.display == display
            &&& wd.layout_pos == pos
            &&& wd.layout_size == size
            &&& !wd.changed
            &&& wd.subtree == Some(
                CompositeSubtree {
                    background_id: (old(world).next_id + 1) as u64,
                    text_id: (old(world).next_id + 2) as u64,
                    zone_id: (old(world).next_id + 3) as u64,
                },
            )
        }),
        ({
            let bg = final(world).backgrounds@[old(world).backgrounds@.len() as int];
            &&& bg.id == old(world).next_id + 1
            &&& bg.owner == old(world).next_id
            &&& bg.image == rec.image
            &&& bg.hover.enlarge == rec.variant_flag
        }),
        ({
            let te = final(world).texts@[old(world).texts@.len() as int];
            &&& te.id == old(world).next_id + 2
            &&& te.pipe.0 == old(world).next_id
            &&& te.content == rec.text
        }),
        ({
            let z = final(world).zones@[old(world).zones@.len() as int];
            &&& z.id == old(world).next_id + 3
            &&& z.owner == old(world).next_id
        }),
{
    let id = world.spawn_widget(rec, action, display, pos, size);
    spawn_observer(world, id);
}

/// Spawns the whole calculator interface into `world`: the clear button at
/// the top left, the display field beside it spanning three columns, and
/// the sixteen action buttons on the four rows below, each expanded into
/// its composite subtree on the spot.
pub fn spawn_ui(world: &mut UiWorld)
    requires
        old(world).wf(),
        old(world).next_id <= u64::MAX - 72,
    ensures
        final(world).wf(),
        final(world).widgets@.len() == old(world).widgets@.len() + 18,
        final(world).backgrounds@.len() == old(world).backgrounds@.len() + 18,
        final(world).texts@.len() == old(world).texts@.len() + 18,
        final(world).zones@.len() == old(world).zones@.len() + 18,
        forall|j: int| #![trigger final(world).widgets@[j]]
            0 <= j < old(world).widgets@.len() ==> final(world).widgets@[j] == old(
                world,
            ).widgets@[j],
        forall|j: int| #![trigger final(world).backgrounds@[j]]
            0 <= j < old(world).backgrounds@.len() ==> final(world).backgrounds@[j] == old(
                world,
            ).backgrounds@[j],
        forall|j: int| #![trigger final(world).texts@[j]]
            0 <= j < old(world).texts@.len() ==> final(world).texts@[j] == old(world).texts@[j],
        forall|j: int| #![trigger final(world).zones@[j]]
            0 <= j < old(world).zones@.len() ==> final(world).zones@[j] == old(world).zones@[j],
        forall|n: int|
            #![trigger calc_widget_ok(*final(world), old(world).widgets@.len() + n, n)]
            0 <= n < 18 ==> calc_widget_ok(*final(world), old(world).widgets@.len() + n, n),
        forall|n: int|
            #![trigger calc_subtree_ok(*final(world), old(world).widgets@.len() + n,
                old(world).backgrounds@.len() + n, old(world).texts@.len() + n,
                old(world).zones@.len() + n)]
            0 <= n < 18 ==> calc_subtree_ok(
                *final(world),
                old(world).widgets@.len() + n,
                old(world).backgrounds@.len() + n,
                old(world).texts@.len() + n,
                old(world).zones@.len() + n,
            ),
        (forall|j: int|
            0 <= j < old(world).widgets@.len() ==> !is_display_widget(
                #[trigger] old(world).widgets@[j],
            )) ==> final(world).resolves_display() && final(world).display_index() == old(
            world,
        ).widgets@.len() + 1,
{
    let c_rec = MyButton {
        text: String::from_str("C"),
        image: ImageHandle { path: String::from_str("images/button_symetric.png") },
        variant_flag: true,
    };
    spawn_composed(world, c_rec, Some(ActionButton), None, get_pos(0, 0), get_size(1, 1));
    proof {
        assert(calc_widget_ok(*world, old(world).widgets@.len() + 0int, 0int));
        assert(calc_subtree_ok(
            *world,
            old(world).widgets@.len() + 0int,
            old(world).backgrounds@.len() + 0int,
            old(world).texts@.len() + 0int,
            old(world).zones@.len() + 0int,
        ));
    }
    let ghost pre1 = *world;
    let d_rec = MyButton {
        text: String::new(),
        image: ImageHandle { path: String::from_str("images/button_symetric.png") },
        variant_flag: false,
    };
    spawn_composed(world, d_rec, None, Some(DisplayField), get_pos(1, 0), get_size(3, 1));
    proof {
        assert(calc_widget_ok(*world, old(world).widgets@.len() + 0int, 0int)) by {
            assert(world.widgets@[old(world).widgets@.len() + 0int] == pre1.widgets@[old(
                world,
            ).widgets@.len() + 0int]);
            assert(calc_widget_ok(pre1, old(world).widgets@.len() + 0int, 0int));
        }
        assert(calc_subtree_ok(
            *world,
            old(world).widgets@.len() + 0int,
            old(world).backgrounds@.len() + 0int,
            old(world).texts@.len() + 0int,
            old(world).zones@.len() + 0int,
        )) by {
            assert(calc_subtree_ok(
                pre1,
                old(world).widgets@.len() + 0int,
                old(world).backgrounds@.len() + 0int,
                old(world).texts@.len() + 0int,
                old(world).zones@.len() + 0int,
            ));
        }
        assert(calc_widget_ok(*world, old(world).widgets@.len() + 1int, 1int));
        assert(calc_subtree_ok(
            *world,
            old(world).widgets@.len() + 1int,
            old(world).backgrounds@.len() + 1int,
            old(world).texts@.len() + 1int,
            old(world).zones@.len() + 1int,
        ));
    }
    let mut i: usize = 0;
    while i < 16
        invariant
            world.wf(),
            i <= 16,
            world.widgets@.len() == old(world).widgets@.len() + 2 + i,
            world.backgrounds@.len() == old(world).backgrounds@.len() + 2 + i,
            world.texts@.len() == old(world).texts@.len() + 2 + i,
            world.zones@.len() == old(world).zones@.len() + 2 + i,
            world.next_id == old(world).next_id + 4 * (2 + i),
            old(world).next_id <= u64::MAX - 72,
            forall|j: int| #![trigger world.widgets@[j]]
                0 <= j < old(world).widgets@.len() ==> world.widgets@[j] == old(
                    world,
                ).widgets@[j],
            forall|j: int| #![trigger world.backgrounds@[j]]
                0 <= j < old(world).backgrounds@.len() ==> world.backgrounds@[j] == old(
                    world,
                ).backgrounds@[j],
            forall|j: int| #![trigger world.texts@[j]]
                0 <= j < old(world).texts@.len() ==> world.texts@[j] == old(world).texts@[j],
            forall|j: int| #![trigger world.zones@[j]]
                0 <= j < old(world).zones@.len() ==> world.zones@[j] == old(world).zones@[j],
            forall|n: int|
                #![trigger calc_widget_ok(*world, old(world).widgets@.len() + n, n)]
                0 <= n < 2 + i ==> calc_widget_ok(*world, old(world).widgets@.len() + n, n),
            forall|n: int|
                #![trigger calc_subtree_ok(*world, old(world).widgets@.len() + n,
                    old(world).backgrounds@.len() + n, old(world).texts@.len() + n,
                    old(world).zones@.len() + n)]
                0 <= n < 2 + i ==> calc_subtree_ok(
                    *world,
                    old(world).widgets@.len() + n,
                    old(world).backgrounds@.len() + n,
                    old(world).texts@.len() + n,
                    old(world).zones@.len() + n,
                ),
        decreases 16 - i,
    {
        let ghost pre = *world;
        let label = button_label(i);
        let image = button_image(label);
        let rec = MyButton { text: String::from_str(label), image, variant_flag: true };
        let x = (i as u16) % XN;
        let y = (i as u16) / XN + 1;
        spawn_composed(world, rec, Some(ActionButton), None, get_pos(x, y), get_size(1, 1));
        proof {
            let w0 = old(world).widgets@.len() as int;
            let b0 = old(world).backgrounds@.len() as int;
            let t0 = old(world).texts@.len() as int;
            let z0 = old(world).zones@.len() as int;
            let m = 2 + i as int;
            assert(x as int == calc_col(m) && y as int == calc_row(m));
            assert(calc_widget_ok(*world, old(world).widgets@.len() + m, m));
            assert(calc_subtree_ok(
                *world,
                old(world).widgets@.len() + m,
                old(world).backgrounds@.len() + m,
                old(world).texts@.len() + m,
                old(world).zones@.len() + m,
            ));
            assert forall|n: int|
                #![trigger calc_widget_ok(*world, old(world).widgets@.len() + n, n)]
                0 <= n < m implies calc_widget_ok(*world, old(world).widgets@.len() + n, n) by {
                assert(calc_widget_ok(pre, old(world).widgets@.len() + n, n));
                assert(world.widgets@[w0 + n] == pre.widgets@[w0 + n]);
            }
            assert forall|n: int|
                #![trigger calc_subtree_ok(*world, old(world).widgets@.len() + n,
                    old(world).backgrounds@.len() + n, old(world).texts@.len() + n,
                    old(world).zones@.len() + n)]
                0 <= n < m implies calc_subtree_ok(
                *world,
                old(world).widgets@.len() + n,
                old(world).backgrounds@.len() + n,
                old(world).texts@.len() + n,
                old(world).zones@.len() + n,
            ) by {
                assert(calc_subtree_ok(pre, old(world).widgets@.len() + n, old(
                    world,
                ).backgrounds@.len() + n, old(world).texts@.len() + n, old(world).zones@.len()
                    + n));
                assert(world.widgets@[w0 + n] == pre.widgets@[w0 + n]);
                assert(world.backgrounds@[b0 + n] == pre.backgrounds@[b0 + n]);
                assert(world.texts@[t0 + n] == pre.texts@[t0 + n]);
                assert(world.zones@[z0 + n] == pre.zones@[z0 + n]);
            }
        }
        i = i + 1;
    }
    proof {
        let w0 = old(world).widgets@.len() as int;
        if forall|j: int|
            0 <= j < w0 ==> !is_display_widget(#[trigger] old(world).widgets@[j]) {
            let di = w0 + 1;
            assert(calc_widget_ok(*world, di, 1));
            assert(is_display_widget(world.widgets@[di]));
            assert forall|j: int|
                0 <= j < world.widgets@.len() && j != di implies !is_display_widget(
                #[trigger] world.widgets@[j],
            ) by {
                if j < w0 {
                    assert(world.widgets@[j] == old(world).widgets@[j]);
                } else {
                    let n = j - w0;
                    assert(calc_widget_ok(*world, old(world).widgets@.len() + n, n));
                    assert(old(world).widgets@.len() + n == j);
                }
            }
            assert(world.resolves_display());
            let c = world.display_index();
            if c != di {
                assert(!is_display_widget(world.widgets@[c]));
            }
        }
    }
}

} // verus!
