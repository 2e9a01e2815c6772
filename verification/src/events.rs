use vstd::prelude::*;
use vstd::string::StringSliceAdditionalSpecFns;
use vstd::utf8::encode_utf8_decode_utf8;
use crate::frame::PointerInput;

verus! {

/// The events a program gets, one per call of its event loop.
#[derive(Debug, Clone, PartialEq, Eq)]
pub enum Way {
    /// The window was closed.
    Exit,
    /// Nothing happened; wait about `msec` milliseconds before asking again.
    Idling { msec: u32 },
    /// The window must be redrawn; it is `width` x `height` pixels.
    Refresh { width: usize, height: usize },
    /// The window got a new size.
    Resize { width: u32, height: u32 },
    /// Focus entered (`enter`) or left the window, by the pointer (`hover`) or the
    /// keyboard; for the keyboard, `cause` counts the keys held down on entering.
    Focus { enter: bool, hover: bool, cause: u32 },
    /// Key repeat settings, in milliseconds.
    KeyInfo { rate: i32, delay: i32 },
    /// A key was pressed or released; `text` is what it types (UTF-8), if anything.
    Key { text: String, keysym: u32, pressed: bool },
    /// Text pasted from the clipboard.
    Paste { text: String },
    /// The pointer moved to `(x, y)` in the window.
    Pointer { x: u32, y: u32 },
    /// A pointer button was pressed (`status`) or released.
    Button { but: u32, status: bool },
}

/// What the window manager told the window, as far as the event loop cares.
#[derive(Debug, Clone, PartialEq, Eq)]
pub enum WindowEvent {
    /// The window state changed, maybe to a new content size.
    Configure { new_size: Option<(u32, u32)> },
    /// The window was asked to close.
    Close,
    /// The decorations need a redraw.
    Refresh,
}

/// Whether a new window event takes the place of the one still pending: only the last
/// event is kept, by priority Close > Configure > Refresh.
pub open spec fn replaces(evt: WindowEvent, pending: Option<WindowEvent>) -> bool {
    match (evt, pending) {
        (_, None) => true,
        (_, Some(WindowEvent::Refresh)) => true,
        (WindowEvent::Configure { .. }, Some(WindowEvent::Configure { .. })) => true,
        (WindowEvent::Close, _) => true,
        _ => false,
    }
}

/// The pending window event once `evt` arrives: `evt` where it takes the place of
/// `pending`, else `pending`.
pub open spec fn after_window_event(pending: Option<WindowEvent>, evt: WindowEvent) -> Option<
    WindowEvent,
> {
    if replaces(evt, pending) {
        Some(evt)
    } else {
        pending
    }
}

/// The pending window event once `events` arrive one after the other, starting from
/// `pending`.
pub open spec fn after_window_events(
    pending: Option<WindowEvent>,
    events: Seq<WindowEvent>,
) -> Option<WindowEvent>
    decreases events.len(),
{
    if events.len() == 0 {
        pending
    } else {
        after_window_event(after_window_events(pending, events.drop_last()), events.last())
    }
}

/// The pending window event once `evt` arrives.
pub fn record_window_event(pending: Option<WindowEvent>, evt: WindowEvent) -> (r: Option<
    WindowEvent,
>)
    ensures
        r == after_window_event(pending, evt),
{
    let replace = match (&evt, &pending) {
        (_, None) => true,
        (_, Some(WindowEvent::Refresh)) => true,
        (WindowEvent::Configure { .. }, Some(WindowEvent::Configure { .. })) => true,
        (WindowEvent::Close, _) => true,
        _ => false,
    };
    if replace {
        Some(evt)
    } else {
        pending
    }
}

/// What the event loop does about the pending window event.
#[derive(Debug)]
pub struct WindowReaction {
    /// Resize the window to this content size.
    pub resize_window: Option<(u32, u32)>,
    /// Refresh the window (redraw its decorations).
    pub refresh_window: bool,
    /// Events to hand to the program, in order.
    pub emit: Vec<Way>,
    /// The window size from now on.
    pub dimensions: (u32, u32),
}

/// The events handed to the program for a configure to `new_size` of a window that was
/// `dimensions`: a resize when the size changes, and always a refresh with the size.
pub open spec fn configure_events(dimensions: (u32, u32), new_size: Option<(u32, u32)>) -> Seq<
    Way,
> {
    let dims = match new_size {
        Some(s) => s,
        None => dimensions,
    };
    let refresh = Way::Refresh { width: dims.0 as usize, height: dims.1 as usize };
    match new_size {
        Some((w, h)) => if dimensions.0 != w || dimensions.1 != h {
            seq![Way::Resize { width: w, height: h }, refresh]
        } else {
            seq![refresh]
        },
        None => seq![refresh],
    }
}

/// What the event loop does about the pending window event `action` of a window that is
/// `dimensions`: a close is handed on as `Exit`; a refresh refreshes the window; a
/// configure resizes the window to the new size if there is one, refreshes it, and hands
/// on the events of `configure_events`.
pub open spec fn window_reaction_spec(dimensions: (u32, u32), action: Option<WindowEvent>) -> (
    Option<(u32, u32)>,
    bool,
    Seq<Way>,
    (u32, u32),
) {
    match action {
        Some(WindowEvent::Close) => (None, false, seq![Way::Exit], dimensions),
        Some(WindowEvent::Refresh) => (None, true, seq![], dimensions),
        Some(WindowEvent::Configure { new_size }) => (
            new_size,
            true,
            configure_events(dimensions, new_size),
            match new_size {
                Some(s) => s,
                None => dimensions,
            },
        ),
        None => (None, false, seq![], dimensions),
    }
}

/// What the event loop does about the pending window event.
pub fn window_reaction(dimensions: (u32, u32), action: Option<WindowEvent>) -> (r: WindowReaction)
    ensures
        (r.resize_window, r.refresh_window, r.emit@, r.dimensions) == window_reaction_spec(
            dimensions,
            action,
        ),
{
    let mut emit: Vec<Way> = Vec::new();
    match action {
        Some(WindowEvent::Close) => {
            emit.push(Way::Exit);
            WindowReaction { resize_window: None, refresh_window: false, emit, dimensions }
        },
        Some(WindowEvent::Refresh) => WindowReaction {
            resize_window: None,
            refresh_window: true,
            emit,
            dimensions,
        },
        Some(WindowEvent::Configure { new_size }) => {
            let mut dims = dimensions;
            if let Some((w, h)) = new_size {
                if dims.0 != w || dims.1 != h {
                    dims = (w, h);
                    emit.push(Way::Resize { width: w, height: h });
                }
            }
            emit.push(Way::Refresh { width: dims.0 as usize, height: dims.1 as usize });
            proof {
                assert(emit@ =~= configure_events(dimensions, new_size));
            }
            WindowReaction { resize_window: new_size, refresh_window: true, emit, dimensions: dims }
        },
        None => WindowReaction { resize_window: None, refresh_window: false, emit, dimensions },
    }
}

/// The event handed out when nothing is waiting: a shorter pause right after events were
/// read from the connection.
pub fn idle_event(events_read: bool) -> (w: Way)
    ensures
        w == (Way::Idling { msec: if events_read { 10 } else { 15 } }),
{
    if events_read {
        Way::Idling { msec: 10 }
    } else {
        Way::Idling { msec: 15 }
    }
}

/// One mode of an output: whether it is the current one, and its size.
#[derive(Debug, Copy, Clone, PartialEq, Eq)]
pub struct OutputMode {
    pub is_current: bool,
    pub width: i32,
    pub height: i32,
}

/// The size a window asked to be `xsize` x `ysize` opens with: a zero width or height is
/// taken from the current modes of the outputs, the first that gives a nonzero value.
pub open spec fn initial_size(xsize: u32, ysize: u32, modes: Seq<OutputMode>) -> (u32, u32)
    decreases modes.len(),
{
    if modes.len() == 0 {
        (xsize, ysize)
    } else {
        let (x, y) = initial_size(xsize, ysize, modes.drop_last());
        let m = modes.last();
        (
            if m.is_current && x == 0 {
                m.width as u32
            } else {
                x
            },
            if m.is_current && y == 0 {
                m.height as u32
            } else {
                y
            },
        )
    }
}

/// The size a window asked to be `xsize` x `ysize` opens with, given the modes of all
/// outputs in order.
pub fn initial_dimensions(xsize: u32, ysize: u32, modes: &Vec<OutputMode>) -> (d: (u32, u32))
    ensures
        d == initial_size(xsize, ysize, modes@),
{
    let mut x = xsize;
    let mut y = ysize;
    if x == 0 || y == 0 {
        let mut k: usize = 0;
        while k < modes.len()
            invariant
                k <= modes@.len(),
                (x, y) == initial_size(xsize, ysize, modes@.take(k as int)),
            decreases modes@.len() - k,
        {
            let mode = modes[k];
            if mode.is_current && x == 0 {
                x = mode.width as u32
            }
            if mode.is_current && y == 0 {
                y = mode.height as u32
            }
            assert(modes@.take((k + 1) as int).drop_last() =~= modes@.take(k as int));
            k = k + 1;
        }
        assert(modes@.take(modes@.len() as int) =~= modes@);
    } else {
        proof {
            lemma_initial_size_keeps_nonzero(xsize, ysize, modes@);
        }
    }
    (x, y)
}

/// A nonzero width and height are kept whatever the outputs say.
pub proof fn lemma_initial_size_keeps_nonzero(xsize: u32, ysize: u32, modes: Seq<OutputMode>)
    requires
        xsize != 0,
        ysize != 0,
    ensures
        initial_size(xsize, ysize, modes) == (xsize, ysize),
    decreases modes.len(),
{
    if modes.len() > 0 {
        lemma_initial_size_keeps_nonzero(xsize, ysize, modes.drop_last());
    }
}

/// The pixel a pointer coordinate of `x` fixed-point units falls in, as an unsigned
/// coordinate: the whole part, with anything left of zero taken as zero.
pub open spec fn fixed_to_pixel(x: i32) -> u32 {
    if x < 0 {
        0
    } else {
        (x / 256) as u32
    }
}

/// The pixel a pointer coordinate falls in.
pub fn fixed_pixel(x: i32) -> (p: u32)
    ensures
        p == fixed_to_pixel(x),
{
    if x < 0 {
        0
    } else {
        (x / 256) as u32
    }
}

/// The event a program gets for an event of its pointer, if any: entering and leaving are
/// pointer focus changes, motions give the pixel position, and buttons their state.
pub open spec fn pointer_way(input: PointerInput) -> Option<Way> {
    match input {
        PointerInput::Enter { .. } => Some(Way::Focus { enter: true, hover: true, cause: 0 }),
        PointerInput::Leave { .. } => Some(Way::Focus { enter: false, hover: true, cause: 0 }),
        PointerInput::Motion { x, y } => Some(
            Way::Pointer { x: fixed_to_pixel(x), y: fixed_to_pixel(y) },
        ),
        PointerInput::Button { button, pressed, .. } => Some(
            Way::Button { but: button, status: pressed },
        ),
        PointerInput::Other => None,
    }
}

/// The event a program gets for an event of its pointer, if any.
pub fn pointer_to_way(input: PointerInput) -> (w: Option<Way>)
    ensures
        w == pointer_way(input),
{
    match input {
        PointerInput::Enter { .. } => Some(Way::Focus { enter: true, hover: true, cause: 0 }),
        PointerInput::Leave { .. } => Some(Way::Focus { enter: false, hover: true, cause: 0 }),
        PointerInput::Motion { x, y } => Some(
            Way::Pointer { x: fixed_pixel(x), y: fixed_pixel(y) },
        ),
        PointerInput::Button { button, pressed, .. } => Some(
            Way::Button { but: button, status: pressed },
        ),
        PointerInput::Other => None,
    }
}

/// Key symbol of the `v` key.
pub const KEY_V: u32 = 0x0076;

/// An event of the keyboard, as the event loop sees it.
#[derive(Debug, Clone, PartialEq, Eq)]
pub enum KeyboardInput {
    /// Focus entered the window with `held` keys down.
    Enter { held: usize },
    Leave,
    /// A key changed state; `text` is what it types, `ctrl` whether Control is down.
    Key { keysym: u32, text: Option<String>, pressed: bool, ctrl: bool },
    RepeatInfo { rate: i32, delay: i32 },
}

/// What the event loop does about a keyboard event: hand `event` to the program, after
/// fetching the clipboard when `paste` is set.
#[derive(Debug, Clone, PartialEq, Eq)]
pub struct KeyboardReaction {
    pub event: Way,
    pub paste: bool,
}

/// The text a key types: its UTF-8 text, or nothing.
pub open spec fn key_text(text: Option<String>) -> Seq<char> {
    match text {
        Some(t) => t@,
        None => Seq::empty(),
    }
}

/// The event a program gets for a keyboard event, and whether it asks for the clipboard:
/// focus changes by the keyboard, key events with their text, and the repeat settings;
/// Control-V pressed asks for the clipboard.
pub fn keyboard_event(input: KeyboardInput) -> (r: KeyboardReaction)
    ensures
        match input {
            KeyboardInput::Enter { held } => r == (KeyboardReaction {
                event: Way::Focus { enter: true, hover: false, cause: held as u32 },
                paste: false,
            }),
            KeyboardInput::Leave => r == (KeyboardReaction {
                event: Way::Focus { enter: false, hover: false, cause: 0 },
                paste: false,
            }),
            KeyboardInput::Key { keysym, text, pressed, ctrl } => {
                &&& r.event matches Way::Key { text: t, keysym: k, pressed: p } && t@ == key_text(
                    text,
                ) && k == keysym && p == pressed
                &&& r.paste == (ctrl && keysym == KEY_V && pressed)
            },
            KeyboardInput::RepeatInfo { rate, delay } => r == (KeyboardReaction {
                event: Way::KeyInfo { rate, delay },
                paste: false,
            }),
        },
{
    match input {
        KeyboardInput::Enter { held } => KeyboardReaction {
            event: Way::Focus { enter: true, hover: false, cause: held as u32 },
            paste: false,
        },
        KeyboardInput::Leave => KeyboardReaction {
            event: Way::Focus { enter: false, hover: false, cause: 0 },
            paste: false,
        },
        KeyboardInput::Key { keysym, text, pressed, ctrl } => {
            let text = if let Some(txt) = text {
                txt
            } else {
                String::new()
            };
            // Control-V pressed: fetch the clipboard
            let paste = ctrl && keysym == KEY_V && pressed;
            KeyboardReaction { event: Way::Key { text, keysym, pressed }, paste }
        },
        KeyboardInput::RepeatInfo { rate, delay } => KeyboardReaction {
            event: Way::KeyInfo { rate, delay },
            paste: false,
        },
    }
}

/// The clipboard type the event loop pastes from.
pub const TEXT_MIME: &'static str = "text/plain;charset=utf-8";

/// Whether two strings are equal, byte by byte.
pub fn str_equal(a: &str, b: &str) -> (eq: bool)
    ensures
        eq == (a@ == b@),
{
    let x = a.as_bytes();
    let y = b.as_bytes();
    proof {
        encode_utf8_decode_utf8(a@);
        encode_utf8_decode_utf8(b@);
    }
    if x.len() != y.len() {
        return false;
    }
    let mut k: usize = 0;
    while k < x.len()
        invariant
            k <= x@.len(),
            x@.len() == y@.len(),
            x@ == a.spec_bytes(),
            y@ == b.spec_bytes(),
            forall|j: int| 0 <= j < k ==> x@[j] == y@[j],
        decreases x@.len() - k,
    {
        if x[k] != y[k] {
            return false;
        }
        k = k + 1;
    }
    assert(x@ =~= y@);
    true
}

/// Whether a clipboard offering the types `types` holds UTF-8 text.
pub fn offers_text(types: &Vec<String>) -> (b: bool)
    ensures
        b == exists|i: int| 0 <= i < types@.len() && #[trigger] types@[i]@ == TEXT_MIME@,
{
    let mut k: usize = 0;
    while k < types.len()
        invariant
            k <= types@.len(),
            forall|j: int| 0 <= j < k ==> #[trigger] types@[j]@ != TEXT_MIME@,
        decreases types@.len() - k,
    {
        if str_equal(types[k].as_str(), TEXT_MIME) {
            return true;
        }
        k = k + 1;
    }
    false
}

} // verus!
