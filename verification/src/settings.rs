//! Button directions, highlight shapes and the integer-valued settings of the menu.
use vstd::prelude::*;
use crate::keys::{InputKey, PointerButton};

verus! {

/// The eight directions a button can occupy in the pie menu.
#[derive(Clone, Copy, Debug, PartialEq, Eq, Hash, Structural)]
pub enum PieDirection {
    North,
    NorthEast,
    East,
    SouthEast,
    South,
    SouthWest,
    West,
    NorthWest,
}

/// Shape of the directional highlight drawn at the center indicator.
///
/// Variants can be combined: `ArcSlice` draws both an arc and a filled wedge,
/// `ArcSliceCircle` draws all three, etc.
#[derive(Clone, Copy, Debug, PartialEq, Eq, Structural)]
pub enum PieMenuHighlightShape {
    /// An arc drawn along the indicator radius.
    Arc,
    /// A filled wedge pointing in the hovered direction.
    Slice,
    /// A dot offset from the center in the hovered direction.
    Circle,
    /// Arc + filled wedge.
    ArcSlice,
    /// Arc + dot.
    ArcCircle,
    /// Arc + filled wedge + dot.
    ArcSliceCircle,
    /// Filled wedge + dot.
    SliceCircle,
    /// No highlight drawn.
    NoHighlight,
}

/// One drawing step of the center highlight. Steps are painted in the order
/// in which they are listed: the wedge below the arc, the dot on top.
#[derive(Clone, Copy, Debug, PartialEq, Eq, Structural)]
pub enum HighlightStep {
    /// Fill the wedge bounded by the highlight arc.
    Slice,
    /// Stroke the highlight arc.
    Arc,
    /// Draw the dot offset in the highlighted direction.
    Circle,
}

impl PieMenuHighlightShape {
    /// The shape includes an arc.
    pub open spec fn spec_has_arc(self) -> bool {
        match self {
            PieMenuHighlightShape::Arc | PieMenuHighlightShape::ArcSlice
            | PieMenuHighlightShape::ArcCircle | PieMenuHighlightShape::ArcSliceCircle => true,
            _ => false,
        }
    }

    /// The shape includes a filled wedge.
    pub open spec fn spec_has_slice(self) -> bool {
        match self {
            PieMenuHighlightShape::Slice | PieMenuHighlightShape::ArcSlice
            | PieMenuHighlightShape::SliceCircle | PieMenuHighlightShape::ArcSliceCircle => true,
            _ => false,
        }
    }

    /// The shape includes a dot.
    pub open spec fn spec_has_circle(self) -> bool {
        match self {
            PieMenuHighlightShape::Circle | PieMenuHighlightShape::ArcCircle
            | PieMenuHighlightShape::SliceCircle | PieMenuHighlightShape::ArcSliceCircle => true,
            _ => false,
        }
    }

    /// The steps that draw the shape: of slice, arc and circle, those the
    /// shape includes, in that order.
    pub open spec fn spec_steps(self) -> Seq<HighlightStep> {
        (if self.spec_has_slice() { seq![HighlightStep::Slice] } else { Seq::empty() })
            + (if self.spec_has_arc() { seq![HighlightStep::Arc] } else { Seq::empty() })
            + (if self.spec_has_circle() { seq![HighlightStep::Circle] } else { Seq::empty() })
    }

    /// Whether the shape includes an arc.
    pub fn has_arc(&self) -> (r: bool)
        ensures
            r == self.spec_has_arc(),
    {
        match self {
            PieMenuHighlightShape::Arc | PieMenuHighlightShape::ArcSlice
            | PieMenuHighlightShape::ArcCircle | PieMenuHighlightShape::ArcSliceCircle => true,
            _ => false,
        }
    }

    /// Whether the shape includes a filled wedge.
    pub fn has_slice(&self) -> (r: bool)
        ensures
            r == self.spec_has_slice(),
    {
        match self {
            PieMenuHighlightShape::Slice | PieMenuHighlightShape::ArcSlice
            | PieMenuHighlightShape::SliceCircle | PieMenuHighlightShape::ArcSliceCircle => true,
            _ => false,
        }
    }

    /// Whether the shape includes a dot.
    pub fn has_circle(&self) -> (r: bool)
        ensures
            r == self.spec_has_circle(),
    {
        match self {
            PieMenuHighlightShape::Circle | PieMenuHighlightShape::ArcCircle
            | PieMenuHighlightShape::SliceCircle | PieMenuHighlightShape::ArcSliceCircle => true,
            _ => false,
        }
    }

    /// The drawing steps of the shape, in painting order.
    pub fn steps(&self) -> (r: Vec<HighlightStep>)
        ensures
            r@ == self.spec_steps(),
    {
        let mut r: Vec<HighlightStep> = Vec::new();
        if self.has_slice() {
            r.push(HighlightStep::Slice);
        }
        if self.has_arc() {
            r.push(HighlightStep::Arc);
        }
        if self.has_circle() {
            r.push(HighlightStep::Circle);
        }
        proof {
            assert(r@ =~= self.spec_steps());
        }
        r
    }
}

/// Distinct shapes draw distinct sets of parts, and only `NoHighlight`
/// draws nothing.
pub proof fn lemma_highlight_parts_identify_shape(a: PieMenuHighlightShape, b: PieMenuHighlightShape)
    ensures
        (a.spec_has_arc() == b.spec_has_arc() && a.spec_has_slice() == b.spec_has_slice()
            && a.spec_has_circle() == b.spec_has_circle()) ==> a == b,
        (a == PieMenuHighlightShape::NoHighlight) <==> (!a.spec_has_arc() && !a.spec_has_slice()
            && !a.spec_has_circle()),
        (a == PieMenuHighlightShape::NoHighlight) <==> a.spec_steps().len() == 0,
{
}

/// The parts each shape draws, and their painting order, shape by shape.
pub proof fn lemma_highlight_steps_table(s: PieMenuHighlightShape)
    ensures
        s == PieMenuHighlightShape::Arc ==> s.spec_steps() == seq![HighlightStep::Arc],
        s == PieMenuHighlightShape::Slice ==> s.spec_steps() == seq![HighlightStep::Slice],
        s == PieMenuHighlightShape::Circle ==> s.spec_steps() == seq![HighlightStep::Circle],
        s == PieMenuHighlightShape::ArcSlice ==> s.spec_steps() == seq![HighlightStep::Slice, HighlightStep::Arc],
        s == PieMenuHighlightShape::ArcCircle ==> s.spec_steps() == seq![HighlightStep::Arc, HighlightStep::Circle],
        s == PieMenuHighlightShape::ArcSliceCircle ==> s.spec_steps()
            == seq![HighlightStep::Slice, HighlightStep::Arc, HighlightStep::Circle],
        s == PieMenuHighlightShape::SliceCircle ==> s.spec_steps() == seq![HighlightStep::Slice, HighlightStep::Circle],
        s == PieMenuHighlightShape::NoHighlight ==> s.spec_steps() == Seq::<HighlightStep>::empty(),
{
    assert(PieMenuHighlightShape::ArcSliceCircle.spec_steps() =~= seq![HighlightStep::Slice, HighlightStep::Arc, HighlightStep::Circle]);
    assert(PieMenuHighlightShape::ArcSlice.spec_steps() =~= seq![HighlightStep::Slice, HighlightStep::Arc]);
    assert(PieMenuHighlightShape::ArcCircle.spec_steps() =~= seq![HighlightStep::Arc, HighlightStep::Circle]);
    assert(PieMenuHighlightShape::SliceCircle.spec_steps() =~= seq![HighlightStep::Slice, HighlightStep::Circle]);
    assert(PieMenuHighlightShape::Arc.spec_steps() =~= seq![HighlightStep::Arc]);
    assert(PieMenuHighlightShape::Slice.spec_steps() =~= seq![HighlightStep::Slice]);
    assert(PieMenuHighlightShape::Circle.spec_steps() =~= seq![HighlightStep::Circle]);
    assert(PieMenuHighlightShape::NoHighlight.spec_steps() =~= Seq::<HighlightStep>::empty());
}

/// An input that dismisses the pie menu.
#[derive(Clone, Copy, Debug, PartialEq, Eq, Structural)]
pub enum PieMenuDismissInput {
    /// A keyboard key press.
    Key(InputKey),
    /// A mouse button click.
    PointerButton(PointerButton),
}

/// When the menu first appears after it is opened.
#[derive(Clone, Copy, Debug, PartialEq, Eq, Structural)]
pub enum ShowBehavior {
    /// The menu appears at once while the hotkey is held; a release is never
    /// answered with a quick tap or a double tap.
    Instant,
    /// The menu appears once the pointer has moved the show threshold away
    /// from where it opened; releasing the hotkey before that is a quick tap
    /// or a double tap.
    OnMovement,
}

/// Input and dismissal behaviour.
pub struct PieMenuInput {
    /// When the menu first appears.
    pub show_behavior: ShowBehavior,
    /// Allow numpad keys 1-9 to activate buttons by direction.
    pub use_numpad_keys: bool,
    /// Allow single-character mnemonic keys to activate buttons.
    pub use_mnemonic_keys: bool,
    /// Maximum gap, in milliseconds, between two quick taps that makes the
    /// second one a double tap.
    pub double_tap_window_ms: u64,
    /// Select the hovered button when the primary mouse button is clicked.
    ///
    /// Set to `false` for Blender-style interaction, where selection is triggered
    /// by releasing the key that opened the menu rather than by a separate click.
    pub select_on_primary_click: bool,
    /// Inputs that dismiss the menu without selecting a button.
    pub dismiss_inputs: Vec<PieMenuDismissInput>,
}

impl PieMenuInput {
    /// The dismiss inputs used by default: Escape, the `5` key and a
    /// secondary click.
    pub open spec fn default_dismiss_inputs() -> Seq<PieMenuDismissInput> {
        seq![
            PieMenuDismissInput::Key(InputKey::Escape),
            PieMenuDismissInput::Key(InputKey::Num(5)),
            PieMenuDismissInput::PointerButton(PointerButton::Secondary),
        ]
    }
}

impl Default for PieMenuInput {
    fn default() -> (r: Self)
        ensures
            r.show_behavior == ShowBehavior::OnMovement,
            r.use_numpad_keys,
            r.use_mnemonic_keys,
            r.double_tap_window_ms == 400,
            r.select_on_primary_click,
            r.dismiss_inputs@ == PieMenuInput::default_dismiss_inputs(),
    {
        let dismiss_inputs = vec![
            PieMenuDismissInput::Key(InputKey::Escape),
            PieMenuDismissInput::Key(InputKey::Num(5)),
            PieMenuDismissInput::PointerButton(PointerButton::Secondary),
        ];
        proof {
            assert(dismiss_inputs@ =~= PieMenuInput::default_dismiss_inputs());
        }
        PieMenuInput {
            show_behavior: ShowBehavior::OnMovement,
            use_numpad_keys: true,
            use_mnemonic_keys: true,
            double_tap_window_ms: 400,
            select_on_primary_click: true,
            dismiss_inputs,
        }
    }
}

/// Animation / highlight behaviour.
#[derive(Clone, Copy, Debug, PartialEq, Eq, Structural)]
pub struct PieMenuAnimations {
    /// Snap the highlight to the nearest button direction instead of following the mouse.
    pub center_highlight_snapping: bool,
    /// Whether to draw the center highlight at all.
    pub center_highlight_show: bool,
}

impl Default for PieMenuAnimations {
    fn default() -> (r: Self)
        ensures
            !r.center_highlight_snapping,
            r.center_highlight_show,
    {
        PieMenuAnimations { center_highlight_snapping: false, center_highlight_show: true }
    }
}

/// The center highlight is drawn: the shape draws something and the
/// highlight is switched on.
pub open spec fn spec_draws_center_highlight(
    shape: PieMenuHighlightShape,
    animations: PieMenuAnimations,
) -> bool {
    shape != PieMenuHighlightShape::NoHighlight && animations.center_highlight_show
}

/// The center highlight is drawn exactly when the shape paints some part
/// (an arc, a wedge or a dot) and the highlight is switched on; every shape
/// but `NoHighlight` paints one.
pub proof fn lemma_center_highlight_drawn(s: PieMenuHighlightShape, a: PieMenuAnimations)
    ensures
        spec_draws_center_highlight(s, a) <==> (s.spec_steps().len() > 0 && a.center_highlight_show),
        spec_draws_center_highlight(s, a) <==> ((s.spec_has_arc() || s.spec_has_slice() || s.spec_has_circle())
            && a.center_highlight_show),
        s != PieMenuHighlightShape::NoHighlight ==> s.spec_steps().len() > 0,
        !a.center_highlight_show ==> !spec_draws_center_highlight(s, a),
{
    lemma_highlight_steps_table(s);
}

/// Whether the center highlight is drawn for this shape and these animation settings.
pub fn draws_center_highlight(shape: PieMenuHighlightShape, animations: PieMenuAnimations) -> (r: bool)
    ensures
        r == spec_draws_center_highlight(shape, animations),
{
    !(shape == PieMenuHighlightShape::NoHighlight) && animations.center_highlight_show
}

} // verus!
