//! Window-message handling of the always-on-top helper and the taskbar
//! hide/show sequence.
use vstd::prelude::*;

verus! {

/// The null message.
pub const WM_NULL: u32 = 0x0000;
/// Window creation.
pub const WM_CREATE: u32 = 0x0001;
/// The message loop must end.
pub const WM_QUIT: u32 = 0x0012;
/// A registered hotkey was pressed.
pub const WM_HOTKEY: u32 = 0x0312;

/// Object location changed.
pub const EVENT_OBJECT_LOCATIONCHANGE: u32 = 0x800B;
/// A window is being minimized.
pub const EVENT_SYSTEM_MINIMIZESTART: u32 = 0x0016;
/// A window was restored.
pub const EVENT_SYSTEM_MINIMIZEEND: u32 = 0x0017;
/// A window finished moving or resizing.
pub const EVENT_SYSTEM_MOVESIZEEND: u32 = 0x000B;
/// The foreground window changed.
pub const EVENT_SYSTEM_FOREGROUND: u32 = 0x0003;
/// An object was destroyed.
pub const EVENT_OBJECT_DESTROY: u32 = 0x8001;
/// An object received the focus.
pub const EVENT_OBJECT_FOCUS: u32 = 0x8005;

/// The window events the helper subscribes to, one hook each, in this order.
pub open spec fn subscribed_events_spec() -> Seq<u32> {
    seq![
        EVENT_OBJECT_LOCATIONCHANGE,
        EVENT_SYSTEM_MINIMIZESTART,
        EVENT_SYSTEM_MINIMIZEEND,
        EVENT_SYSTEM_MOVESIZEEND,
        EVENT_SYSTEM_FOREGROUND,
        EVENT_OBJECT_DESTROY,
        EVENT_OBJECT_FOCUS,
    ]
}

/// The window events the helper subscribes to.
pub fn subscribed_events() -> (v: Vec<u32>)
    ensures
        v@ == subscribed_events_spec(),
{
    let v = vec![
        EVENT_OBJECT_LOCATIONCHANGE,
        EVENT_SYSTEM_MINIMIZESTART,
        EVENT_SYSTEM_MINIMIZEEND,
        EVENT_SYSTEM_MOVESIZEEND,
        EVENT_SYSTEM_FOREGROUND,
        EVENT_OBJECT_DESTROY,
        EVENT_OBJECT_FOCUS,
    ];
    assert(v@ =~= subscribed_events_spec());
    v
}

/// The helper hooks seven different window events, each once: location
/// change (0x800B), minimize start (0x0016), minimize end (0x0017), move or
/// size end (0x000B), foreground (0x0003), destroy (0x8001) and focus (0x8005).
pub proof fn law_each_event_hooked_once()
    ensures
        subscribed_events_spec().len() == 7,
        subscribed_events_spec().no_duplicates(),
        subscribed_events_spec().to_set() == set![
            0x800Bu32,
            0x0016u32,
            0x0017u32,
            0x000Bu32,
            0x0003u32,
            0x8001u32,
            0x8005u32,
        ],
{
    let s = subscribed_events_spec();
    assert(s.to_set() =~= set![
        0x800Bu32,
        0x0016u32,
        0x0017u32,
        0x000Bu32,
        0x0003u32,
        0x8001u32,
        0x8005u32,
    ]) by {
        assert forall|x: u32| s.to_set().contains(x) implies set![
            0x800Bu32,
            0x0016u32,
            0x0017u32,
            0x000Bu32,
            0x0003u32,
            0x8001u32,
            0x8005u32,
        ].contains(x) by {
            let k = choose|k: int| 0 <= k < s.len() && s[k] == x;
        }
        assert(s[0] == 0x800Bu32 && s[1] == 0x0016u32 && s[2] == 0x0017u32 && s[3] == 0x000Bu32);
        assert(s[4] == 0x0003u32 && s[5] == 0x8001u32 && s[6] == 0x8005u32);
        assert(s.contains(s[0]) && s.contains(s[1]) && s.contains(s[2]) && s.contains(s[3]));
        assert(s.contains(s[4]) && s.contains(s[5]) && s.contains(s[6]));
    }
}

/// What the helper does with a window message.
#[derive(PartialEq, Eq, Structural, Debug, Clone, Copy)]
pub enum MessageAction {
    /// The settings changed (logged only).
    SettingsChanged,
    /// The window was created: subscribe to the window events.
    SubscribeToEvents,
    /// A hotkey (logged only).
    Hotkey,
    /// The null message (logged only).
    Null,
    /// The message loop ends.
    Quit,
    /// Anything else goes to the default window procedure.
    Default,
}

/// The action for a message; `settings_changed` is the message number the
/// helper registered for settings changes, and it is checked first.
pub fn message_action(message: u32, settings_changed: u32) -> (a: MessageAction)
    ensures
        a == if message == settings_changed {
            MessageAction::SettingsChanged
        } else if message == WM_CREATE {
            MessageAction::SubscribeToEvents
        } else if message == WM_HOTKEY {
            MessageAction::Hotkey
        } else if message == WM_NULL {
            MessageAction::Null
        } else if message == WM_QUIT {
            MessageAction::Quit
        } else {
            MessageAction::Default
        },
{
    if message == settings_changed {
        MessageAction::SettingsChanged
    } else if message == WM_CREATE {
        MessageAction::SubscribeToEvents
    } else if message == WM_HOTKEY {
        MessageAction::Hotkey
    } else if message == WM_NULL {
        MessageAction::Null
    } else if message == WM_QUIT {
        MessageAction::Quit
    } else {
        MessageAction::Default
    }
}

/// What waiting for one message reports: nothing when the wait failed or the
/// loop must end, otherwise the message number.
pub fn handled_message(got_message: bool, message: u32, settings_changed: u32) -> (r: Option<u32>)
    ensures
        r == if !got_message || (message != settings_changed && message == WM_QUIT) {
            None
        } else {
            Some(message)
        },
{
    if !got_message {
        return None;
    }
    match message_action(message, settings_changed) {
        MessageAction::Quit => None,
        _ => Some(message),
    }
}

/// Whether the guard of the helper window destroys the window when dropped:
/// it does for every window that was created, that is every non-null handle.
pub fn window_guard_destroys(handle: isize) -> (b: bool)
    ensures
        b == (handle != 0),
{
    handle != 0
}

/// Why the helper window could not be made.
#[derive(PartialEq, Eq, Structural, Debug, Clone, Copy)]
pub enum WindowError {
    CannotCreateWindow,
}

/// The created helper window, or the error when its handle is null.
pub fn hidden_window(handle: isize) -> (r: Result<isize, WindowError>)
    ensures
        r == if handle == 0 {
            Err::<isize, WindowError>(WindowError::CannotCreateWindow)
        } else {
            Ok::<isize, WindowError>(handle)
        },
{
    if handle == 0 {
        Err(WindowError::CannotCreateWindow)
    } else {
        Ok(handle)
    }
}

/// Taskbar state: hide automatically.
pub const ABS_AUTOHIDE: isize = 0x1;
/// Taskbar state: always on top.
pub const ABS_ALWAYSONTOP: isize = 0x2;

/// How the taskbar is hidden or shown.
#[derive(PartialEq, Eq, Structural, Debug, Clone, Copy)]
pub struct TaskbarPlan {
    /// The state given to the application bar.
    pub appbar_state: isize,
    /// Whether the taskbar window is shown.
    pub show_window: bool,
    /// The opacity given to the taskbar window.
    pub alpha: u8,
    /// How often the window state and opacity are applied (after a short pause each time).
    pub repeats: u32,
    /// Whether a pause comes before each application.
    pub pause_first: bool,
}

/// Hiding sets the bar to auto-hide and then, ten times after a short pause,
/// hides the window and makes it transparent; showing sets the bar on top and
/// shows the window once, nearly transparent.
pub fn taskbar_plan(hide: bool) -> (p: TaskbarPlan)
    ensures
        p == if hide {
            TaskbarPlan {
                appbar_state: ABS_AUTOHIDE,
                show_window: false,
                alpha: 0,
                repeats: 10,
                pause_first: true,
            }
        } else {
            TaskbarPlan {
                appbar_state: ABS_ALWAYSONTOP,
                show_window: true,
                alpha: 2,
                repeats: 1,
                pause_first: false,
            }
        },
{
    if hide {
        TaskbarPlan {
            appbar_state: ABS_AUTOHIDE,
            show_window: false,
            alpha: 0,
            repeats: 10,
            pause_first: true,
        }
    } else {
        TaskbarPlan {
            appbar_state: ABS_ALWAYSONTOP,
            show_window: true,
            alpha: 2,
            repeats: 1,
            pause_first: false,
        }
    }
}

} // verus!
