//! What keys and pointer events bring about, and the actions of the view.

use vstd::prelude::*;

verus! {

/// An action of the view.
#[derive(Clone, Copy, Debug, PartialEq, Eq, Structural)]
pub enum ViewAction {
    Preview,
    ZoomIn,
    ZoomOut,
    Lock,
    LockX,
    LockY,
    LockLocal,
    LockControls,
    Precision,
    Snap,
    SnapClear,
    SnapAngle,
    SnapGrid,
    SnapGuidelines,
    SnapMetrics,
}

impl ViewAction {
    /// The name of the action.
    pub open spec fn spec_name(self) -> Seq<char> {
        match self {
            ViewAction::Preview => "preview"@,
            ViewAction::ZoomIn => "zoom.in"@,
            ViewAction::ZoomOut => "zoom.out"@,
            ViewAction::Lock => "lock"@,
            ViewAction::LockX => "lock.x"@,
            ViewAction::LockY => "lock.y"@,
            ViewAction::LockLocal => "lock.local"@,
            ViewAction::LockControls => "lock.controls"@,
            ViewAction::Precision => "precision"@,
            ViewAction::Snap => "snap"@,
            ViewAction::SnapClear => "snap.clear"@,
            ViewAction::SnapAngle => "snap.angle"@,
            ViewAction::SnapGrid => "snap.grid"@,
            ViewAction::SnapGuidelines => "snap.guidelines"@,
            ViewAction::SnapMetrics => "snap.metrics"@,
        }
    }

    /// The name of the action.
    pub fn name(self) -> (name: &'static str)
        ensures
            name@ == self.spec_name(),
            self is Preview ==> name@ == "preview"@,
            self is ZoomIn ==> name@ == "zoom.in"@,
            self is ZoomOut ==> name@ == "zoom.out"@,
            self is Lock ==> name@ == "lock"@,
            self is LockX ==> name@ == "lock.x"@,
            self is LockY ==> name@ == "lock.y"@,
            self is LockLocal ==> name@ == "lock.local"@,
            self is LockControls ==> name@ == "lock.controls"@,
            self is Precision ==> name@ == "precision"@,
            self is Snap ==> name@ == "snap"@,
            self is SnapClear ==> name@ == "snap.clear"@,
            self is SnapAngle ==> name@ == "snap.angle"@,
            self is SnapGrid ==> name@ == "snap.grid"@,
            self is SnapGuidelines ==> name@ == "snap.guidelines"@,
            self is SnapMetrics ==> name@ == "snap.metrics"@,
    {
        match self {
            ViewAction::Preview => "preview",
            ViewAction::ZoomIn => "zoom.in",
            ViewAction::ZoomOut => "zoom.out",
            ViewAction::Lock => "lock",
            ViewAction::LockX => "lock.x",
            ViewAction::LockY => "lock.y",
            ViewAction::LockLocal => "lock.local",
            ViewAction::LockControls => "lock.controls",
            ViewAction::Precision => "precision",
            ViewAction::Snap => "snap",
            ViewAction::SnapClear => "snap.clear",
            ViewAction::SnapAngle => "snap.angle",
            ViewAction::SnapGrid => "snap.grid",
            ViewAction::SnapGuidelines => "snap.guidelines",
            ViewAction::SnapMetrics => "snap.metrics",
        }
    }
}

/// What a key brings about.
#[derive(Clone, Copy, Debug, PartialEq, Eq, Structural)]
pub enum KeyEffect {
    /// The state of the preview action changes.
    SetPreview(bool),
    /// An action is activated.
    Activate(ViewAction),
}

/// Which actions are enabled, of those that keys depend on.
#[derive(Clone, Copy, Debug, PartialEq, Eq, Structural)]
pub struct EnabledActions {
    pub preview: bool,
    pub lock: bool,
    pub snap: bool,
}

/// The grave accent.
pub const KEY_GRAVE: u32 = 0x60;

/// The small letter x.
pub const KEY_X: u32 = 0x78;

/// The small letter y.
pub const KEY_Y: u32 = 0x79;

/// The capital letter A.
pub const KEY_CAPITAL_A: u32 = 0x41;

/// The capital letter G.
pub const KEY_CAPITAL_G: u32 = 0x47;

/// The capital letter L.
pub const KEY_CAPITAL_L: u32 = 0x4c;

/// The capital letter M.
pub const KEY_CAPITAL_M: u32 = 0x4d;

/// The action that a key activates, if the actions of its group are enabled.
pub open spec fn key_action(keyval: u32) -> Option<ViewAction> {
    if keyval == KEY_X {
        Some(ViewAction::LockX)
    } else if keyval == KEY_Y {
        Some(ViewAction::LockY)
    } else if keyval == KEY_CAPITAL_A {
        Some(ViewAction::SnapAngle)
    } else if keyval == KEY_CAPITAL_G {
        Some(ViewAction::SnapGrid)
    } else if keyval == KEY_CAPITAL_L {
        Some(ViewAction::SnapGuidelines)
    } else if keyval == KEY_CAPITAL_M {
        Some(ViewAction::SnapMetrics)
    } else {
        None
    }
}

/// Whether the group that an action of a key belongs to is enabled.
pub open spec fn group_enabled(action: ViewAction, enabled: EnabledActions) -> bool {
    if action == ViewAction::LockX || action == ViewAction::LockY {
        enabled.lock
    } else {
        enabled.snap
    }
}

/// What pressing a key brings about.
pub open spec fn press_effect(keyval: u32, enabled: EnabledActions) -> Option<KeyEffect> {
    if keyval == KEY_GRAVE {
        if enabled.preview {
            Some(KeyEffect::SetPreview(true))
        } else {
            None
        }
    } else {
        match key_action(keyval) {
            Some(action) => if group_enabled(action, enabled) {
                Some(KeyEffect::Activate(action))
            } else {
                None
            },
            None => None,
        }
    }
}

/// What pressing a key brings about. `None` leaves the key to others.
pub fn key_pressed(keyval: u32, enabled: EnabledActions) -> (effect: Option<KeyEffect>)
    ensures
        effect == press_effect(keyval, enabled),
        effect == Some(KeyEffect::SetPreview(true)) <==> keyval == 0x60 && enabled.preview,
        effect != Some(KeyEffect::SetPreview(false)),
        effect == Some(KeyEffect::Activate(ViewAction::LockX)) <==> keyval == 0x78
            && enabled.lock,
        effect == Some(KeyEffect::Activate(ViewAction::LockY)) <==> keyval == 0x79
            && enabled.lock,
        effect == Some(KeyEffect::Activate(ViewAction::SnapAngle)) <==> keyval == 0x41
            && enabled.snap,
        effect == Some(KeyEffect::Activate(ViewAction::SnapGrid)) <==> keyval == 0x47
            && enabled.snap,
        effect == Some(KeyEffect::Activate(ViewAction::SnapGuidelines)) <==> keyval == 0x4c
            && enabled.snap,
        effect == Some(KeyEffect::Activate(ViewAction::SnapMetrics)) <==> keyval == 0x4d
            && enabled.snap,
        effect is None <==> !(keyval == 0x60 && enabled.preview) && !((keyval == 0x78 || keyval
            == 0x79) && enabled.lock) && !((keyval == 0x41 || keyval == 0x47 || keyval == 0x4c
            || keyval == 0x4d) && enabled.snap),
{
    if keyval == KEY_GRAVE && enabled.preview {
        Some(KeyEffect::SetPreview(true))
    } else if keyval == KEY_X && enabled.lock {
        Some(KeyEffect::Activate(ViewAction::LockX))
    } else if keyval == KEY_Y && enabled.lock {
        Some(KeyEffect::Activate(ViewAction::LockY))
    } else if keyval == KEY_CAPITAL_A && enabled.snap {
        Some(KeyEffect::Activate(ViewAction::SnapAngle))
    } else if keyval == KEY_CAPITAL_G && enabled.snap {
        Some(KeyEffect::Activate(ViewAction::SnapGrid))
    } else if keyval == KEY_CAPITAL_L && enabled.snap {
        Some(KeyEffect::Activate(ViewAction::SnapGuidelines))
    } else if keyval == KEY_CAPITAL_M && enabled.snap {
        Some(KeyEffect::Activate(ViewAction::SnapMetrics))
    } else {
        None
    }
}

/// What releasing a key brings about: the grave accent ends the preview.
pub fn key_released(keyval: u32, enabled: EnabledActions) -> (effect: Option<KeyEffect>)
    ensures
        effect == (if keyval == KEY_GRAVE && enabled.preview {
            Some(KeyEffect::SetPreview(false))
        } else {
            None
        }),
        effect is Some <==> keyval == 0x60 && enabled.preview,
        effect == Some(KeyEffect::SetPreview(false)) <==> press_effect(keyval, enabled) == Some(
            KeyEffect::SetPreview(true),
        ),
{
    if keyval == KEY_GRAVE && enabled.preview {
        Some(KeyEffect::SetPreview(false))
    } else {
        None
    }
}

/// An event of the pointer, which goes to the active tool first.
#[derive(Clone, Copy, Debug, PartialEq, Eq, Structural)]
pub enum PointerEvent {
    Scroll,
    ButtonPress,
    ButtonRelease,
    Motion,
}

/// What follows a pointer event.
#[derive(Clone, Copy, Debug, PartialEq, Eq, Structural)]
pub struct PointerOutcome {
    /// The view is drawn again.
    pub redraw: bool,
    /// The position of the event becomes that of the mouse.
    pub moves_mouse: bool,
    /// The event goes no further.
    pub stops: bool,
}

/// What follows a pointer event, given whether the tool took it: the view is
/// drawn again and the event stops where it did, and all but scrolling moves the
/// mouse.
pub fn pointer_handled(event: PointerEvent, taken: bool) -> (outcome: PointerOutcome)
    ensures
        outcome.redraw == taken,
        outcome.stops == taken,
        outcome.moves_mouse == (event != PointerEvent::Scroll),
{
    let moves_mouse = match event {
        PointerEvent::Scroll => false,
        _ => true,
    };
    PointerOutcome { redraw: taken, moves_mouse, stops: taken }
}

/// What each key brings about when it is pressed: the grave accent begins the preview;
/// x and y activate the locks to their axes; A, G, L and M activate snapping to
/// angles, to the grid, to guidelines and to metrics. Each does so only while its
/// group of actions is enabled, and no other key does anything.
pub proof fn law_keys(keyval: u32, enabled: EnabledActions)
    ensures
        press_effect(keyval, enabled) == Some(KeyEffect::SetPreview(true)) <==> keyval == 0x60
            && enabled.preview,
        press_effect(keyval, enabled) != Some(KeyEffect::SetPreview(false)),
        press_effect(keyval, enabled) == Some(KeyEffect::Activate(ViewAction::LockX))
            <==> keyval == 0x78
            && enabled.lock,
        press_effect(keyval, enabled) == Some(KeyEffect::Activate(ViewAction::LockY))
            <==> keyval == 0x79
            && enabled.lock,
        press_effect(keyval, enabled) == Some(KeyEffect::Activate(ViewAction::SnapAngle))
            <==> keyval == 0x41
            && enabled.snap,
        press_effect(keyval, enabled) == Some(KeyEffect::Activate(ViewAction::SnapGrid))
            <==> keyval == 0x47
            && enabled.snap,
        press_effect(keyval, enabled)
            == Some(KeyEffect::Activate(ViewAction::SnapGuidelines)) <==> keyval == 0x4c
            && enabled.snap,
        press_effect(keyval, enabled) == Some(KeyEffect::Activate(ViewAction::SnapMetrics))
            <==> keyval == 0x4d
            && enabled.snap,
        press_effect(keyval, enabled) is None <==> !(keyval == 0x60 && enabled.preview)
            && !((keyval == 0x78 || keyval
            == 0x79) && enabled.lock) && !((keyval == 0x41 || keyval == 0x47 || keyval == 0x4c
            || keyval == 0x4d) && enabled.snap),
{
}

/// The name of each action.
pub proof fn law_action_names(action: ViewAction)
    ensures
        action is Preview ==> action.spec_name() == "preview"@,
        action is ZoomIn ==> action.spec_name() == "zoom.in"@,
        action is ZoomOut ==> action.spec_name() == "zoom.out"@,
        action is Lock ==> action.spec_name() == "lock"@,
        action is LockX ==> action.spec_name() == "lock.x"@,
        action is LockY ==> action.spec_name() == "lock.y"@,
        action is LockLocal ==> action.spec_name() == "lock.local"@,
        action is LockControls ==> action.spec_name() == "lock.controls"@,
        action is Precision ==> action.spec_name() == "precision"@,
        action is Snap ==> action.spec_name() == "snap"@,
        action is SnapClear ==> action.spec_name() == "snap.clear"@,
        action is SnapAngle ==> action.spec_name() == "snap.angle"@,
        action is SnapGrid ==> action.spec_name() == "snap.grid"@,
        action is SnapGuidelines ==> action.spec_name() == "snap.guidelines"@,
        action is SnapMetrics ==> action.spec_name() == "snap.metrics"@,
{
}

} // verus!
