use vstd::prelude::*;

verus! {

/// Access to state that a value carries with it.
pub trait WithState {
    type State;

    fn with_state<F, T>(&self, f: F) where F: FnOnce(&Self::State) -> T;

    fn with_state_mut<F, T>(&self, f: F) where F: FnOnce(&mut Self::State) -> T;
}

/// The kinds of input event that a backend delivers.
#[derive(Debug, Clone, Copy, PartialEq, Eq, Structural)]
pub enum InputEventKind {
    DeviceAdded,
    DeviceRemoved,
    Keyboard,
    PointerMotion,
    PointerMotionAbsolute,
    PointerButton,
    PointerAxis,
    GestureSwipeBegin,
    GestureSwipeUpdate,
    GestureSwipeEnd,
    GesturePinchBegin,
    GesturePinchUpdate,
    GesturePinchEnd,
    GestureHoldBegin,
    GestureHoldEnd,
    TouchDown,
    TouchMotion,
    TouchUp,
    TouchCancel,
    TouchFrame,
    TabletToolAxis,
    TabletToolProximity,
    TabletToolTip,
    TabletToolButton,
    SwitchToggle,
    Special,
}

/// The events the compositor handles: keyboard, pointer, and a device being added.
pub open spec fn handled(k: InputEventKind) -> bool {
    ||| k is Keyboard
    ||| k is PointerMotion
    ||| k is PointerMotionAbsolute
    ||| k is PointerButton
    ||| k is PointerAxis
    ||| k is DeviceAdded
}

/// Exactly keyboard events, the four kinds of pointer event and a device
/// being added are handled; every gesture, touch, tablet, switch and special
/// event, and a device being removed, is not.
pub proof fn lemma_handled_kinds(k: InputEventKind)
    ensures
        handled(k) == (k == InputEventKind::Keyboard || k == InputEventKind::PointerMotion || k
            == InputEventKind::PointerMotionAbsolute || k == InputEventKind::PointerButton || k
            == InputEventKind::PointerAxis || k == InputEventKind::DeviceAdded),
{
}

impl InputEventKind {
    /// Whether the compositor handles events of this kind; the others are not
    /// implemented.
    pub fn is_handled(&self) -> (r: bool)
        ensures
            r == handled(*self),
    {
        match self {
            InputEventKind::Keyboard => true,
            InputEventKind::PointerMotion => true,
            InputEventKind::PointerMotionAbsolute => true,
            InputEventKind::PointerButton => true,
            InputEventKind::PointerAxis => true,
            InputEventKind::DeviceAdded => true,
            _ => false,
        }
    }
}

/// The first surface found, in stacking order from the top.
pub open spec fn topmost<T>(
    overlay: Option<T>,
    top: Option<T>,
    window: Option<T>,
    bottom: Option<T>,
    background: Option<T>,
) -> Option<T> {
    if overlay is Some {
        overlay
    } else if top is Some {
        top
    } else if window is Some {
        window
    } else if bottom is Some {
        bottom
    } else {
        background
    }
}

/// The stacking order: an overlay surface wins over everything; a top-layer
/// surface wins over windows and lower layers; a window wins over the bottom
/// and background layers; the background is found only when nothing else is.
pub proof fn lemma_stacking_order<T>(
    overlay: Option<T>,
    top: Option<T>,
    window: Option<T>,
    bottom: Option<T>,
    background: Option<T>,
)
    ensures
        overlay is Some ==> topmost(overlay, top, window, bottom, background) == overlay,
        overlay is None && top is Some ==> topmost(overlay, top, window, bottom, background)
            == top,
        overlay is None && top is None && window is Some ==> topmost(
            overlay,
            top,
            window,
            bottom,
            background,
        ) == window,
        overlay is None && top is None && window is None && bottom is Some ==> topmost(
            overlay,
            top,
            window,
            bottom,
            background,
        ) == bottom,
        overlay is None && top is None && window is None && bottom is None ==> topmost(
            overlay,
            top,
            window,
            bottom,
            background,
        ) == background,
{
}

/// Picks the surface under the pointer: a layer surface of the overlay or top
/// layer, else a window, else a layer surface of the bottom or background layer.
pub fn surface_under<T>(
    overlay: Option<T>,
    top: Option<T>,
    window: Option<T>,
    bottom: Option<T>,
    background: Option<T>,
) -> (r: Option<T>)
    ensures
        r == topmost(overlay, top, window, bottom, background),
{
    match overlay {
        Some(s) => Some(s),
        None => match top {
            Some(s) => Some(s),
            None => match window {
                Some(s) => Some(s),
                None => match bottom {
                    Some(s) => Some(s),
                    None => background,
                },
            },
        },
    }
}

/// The sum of two coordinates, held to the range of `i32`.
pub open spec fn saturating_sum(a: i32, b: i32) -> i32 {
    if a + b > i32::MAX {
        i32::MAX
    } else if a + b < i32::MIN {
        i32::MIN
    } else {
        (a + b) as i32
    }
}

fn saturating_add_i32(a: i32, b: i32) -> (r: i32)
    ensures
        r == saturating_sum(a, b),
{
    let s = a as i64 + b as i64;
    if s > i32::MAX as i64 {
        i32::MAX
    } else if s < i32::MIN as i64 {
        i32::MIN
    } else {
        s as i32
    }
}

/// Where a layer surface stands on the whole desktop: its output's position
/// plus its position on the output, each coordinate held to the range of `i32`.
pub fn layer_location(output_loc: (i32, i32), layer_loc: (i32, i32)) -> (r: (i32, i32))
    ensures
        r.0 == saturating_sum(output_loc.0, layer_loc.0),
        r.1 == saturating_sum(output_loc.1, layer_loc.1),
{
    (saturating_add_i32(output_loc.0, layer_loc.0), saturating_add_i32(output_loc.1, layer_loc.1))
}

/// What a scroll frame records for one axis.
#[derive(Debug, Clone, Copy, PartialEq, Eq, Structural)]
pub enum AxisStep {
    /// The amount scrolled.
    Value,
    /// The end of a finger scroll.
    Stop,
    /// Nothing.
    Skip,
}

/// A nonzero amount is recorded; a zero amount from a finger ends the scroll;
/// otherwise nothing is recorded.
pub fn axis_step(amount_is_zero: bool, from_finger: bool) -> (r: AxisStep)
    ensures
        r == (if !amount_is_zero {
            AxisStep::Value
        } else if from_finger {
            AxisStep::Stop
        } else {
            AxisStep::Skip
        }),
{
    if !amount_is_zero {
        AxisStep::Value
    } else if from_finger {
        AxisStep::Stop
    } else {
        AxisStep::Skip
    }
}

} // verus!
