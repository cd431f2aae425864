//! Declarative data for one calculator button.
//!
//! A [`MyButton`] record is the single piece of data a caller attaches to an
//! entity; the composition pass expands it into visual elements.  The record
//! carries the label text, an opaque image reference and a visual-variant
//! flag.  Colors and hover payloads that the expansion installs on the
//! elements are also defined here.

use vstd::prelude::*;

verus! {

/// Opaque reference to an image asset: the path under which the external
/// asset service resolves it.  The library only stores and hands it on.
#[derive(Debug)]
pub struct ImageHandle {
    pub path: String,
}

impl Clone for ImageHandle {
    fn clone(&self) -> (r: Self)
        ensures
            r == *self,
    {
        ImageHandle { path: self.path.clone() }
    }
}

/// Declarative description of one button: the data entity a caller attaches
/// to spawn a composite widget.
///
/// `variant_flag` selects the hover treatment: when set, hovering also
/// enlarges the element; the display field leaves it clear.
#[derive(Debug)]
pub struct MyButton {
    pub text: String,
    pub image: ImageHandle,
    pub variant_flag: bool,
}

impl Clone for MyButton {
    fn clone(&self) -> (r: Self)
        ensures
            r == *self,
    {
        MyButton { text: self.text.clone(), image: self.image.clone(), variant_flag: self.variant_flag }
    }
}

impl Default for MyButton {
    /// An empty record: no label, no image path, plain hover treatment.
    fn default() -> (r: Self)
        ensures
            r.text@ == Seq::<char>::empty(),
            r.image.path@ == Seq::<char>::empty(),
            !r.variant_flag,
    {
        MyButton { text: String::new(), image: ImageHandle { path: String::new() }, variant_flag: false }
    }
}

/// Marker for a widget whose clicks are routed to the calculator.
#[derive(Clone, Copy, Debug, PartialEq, Eq, Structural)]
pub struct ActionButton;

/// Marker for the single widget that holds the calculator's display buffer.
/// A display widget is never actionable.
#[derive(Clone, Copy, Debug, PartialEq, Eq, Structural)]
pub struct DisplayField;

/// A color with channels in thousandths, so that high-dynamic-range values
/// above one whole (1000) stay representable.
#[derive(Clone, Copy, Debug, PartialEq, Eq, Structural)]
pub struct ColorSpec {
    pub red: u16,
    pub green: u16,
    pub blue: u16,
    pub alpha: u16,
}

impl ColorSpec {
    /// The same color with another opacity.
    pub fn with_alpha(self, alpha: u16) -> (r: ColorSpec)
        ensures
            r == (ColorSpec { alpha, ..self }),
    {
        ColorSpec { red: self.red, green: self.green, blue: self.blue, alpha }
    }
}

/// The color palette of the calculator skin.
pub trait BevypunkColorPalette {
    fn bevypunk_red() -> (r: ColorSpec)
        ensures
            r == (ColorSpec { red: 1000, green: 384, blue: 318, alpha: 1000 }),
    ;

    fn bevypunk_red_dim() -> (r: ColorSpec)
        ensures
            r == (ColorSpec { red: 675, green: 251, blue: 247, alpha: 1000 }),
    ;

    fn bevypunk_yellow() -> (r: ColorSpec)
        ensures
            r == (ColorSpec { red: 988, green: 886, blue: 31, alpha: 1000 }),
    ;

    fn bevypunk_blue() -> (r: ColorSpec)
        ensures
            r == (ColorSpec { red: 31, green: 886, blue: 988, alpha: 1000 }),
    ;
}

impl BevypunkColorPalette for ColorSpec {
    fn bevypunk_red() -> (r: ColorSpec) {
        ColorSpec { red: 1000, green: 384, blue: 318, alpha: 1000 }
    }

    fn bevypunk_red_dim() -> (r: ColorSpec) {
        ColorSpec { red: 675, green: 251, blue: 247, alpha: 1000 }
    }

    fn bevypunk_yellow() -> (r: ColorSpec) {
        ColorSpec { red: 988, green: 886, blue: 31, alpha: 1000 }
    }

    fn bevypunk_blue() -> (r: ColorSpec) {
        ColorSpec { red: 31, green: 886, blue: 988, alpha: 1000 }
    }
}

/// A two-state (idle/hovered) animator, driven by discrete pointer
/// enter/leave events.  The speeds are interpolation rates per second toward
/// the hovered and the idle state; `instant` skips interpolation entirely.
/// When `enlarge` is set the hovered state also grows the element's boundary.
#[derive(Clone, Copy, Debug, PartialEq, Eq, Structural)]
pub struct HoverAnimator {
    pub hovered: bool,
    pub forward_speed: u16,
    pub backward_speed: u16,
    pub instant: bool,
    pub enlarge: bool,
}

} // verus!
