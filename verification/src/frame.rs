use vstd::prelude::*;

verus! {

/// Thickness of the window border, in pixels.
pub const BORDER_SIZE: u32 = 1;

/// Height of the title bar, in pixels.
pub const HEADER_SIZE: u32 = 1 + 16 + 1;

/// Index of the top decoration part.
pub const TOP: usize = 0;

/// Index of the bottom decoration part.
pub const BOTTOM: usize = 1;

/// Index of the left decoration part.
pub const LEFT: usize = 2;

/// Index of the right decoration part.
pub const RIGHT: usize = 3;

/// Pointer coordinates come from the compositor in fixed point: this many units per pixel.
pub const FIXED_UNIT: i64 = 256;

/// The three buttons of the title bar.
#[derive(Debug, Copy, Clone, PartialEq, Eq, Structural)]
pub enum UIButton {
    Minimize,
    Maximize,
    Close,
}

/// Where on the decorations a pointer is.
#[derive(Debug, Copy, Clone, PartialEq, Eq, Structural)]
pub enum Location {
    Outside,
    Top,
    TopRight,
    Right,
    BottomRight,
    Bottom,
    BottomLeft,
    Left,
    TopLeft,
    TopBar,
    Button(UIButton),
}

/// Which edge or corner an interactive resize drags.
#[derive(Debug, Copy, Clone, PartialEq, Eq, Structural)]
pub enum Edge {
    Top,
    Bottom,
    Left,
    TopLeft,
    BottomLeft,
    Right,
    TopRight,
    BottomRight,
}

/// What the decorations ask of the window.
#[derive(Debug, Copy, Clone, PartialEq, Eq, Structural)]
pub enum FrameAction {
    /// Start an interactive resize by the given edge, with the pointer's seat.
    Resize(Edge),
    /// Start an interactive move, with the pointer's seat.
    Move,
    Close,
    Maximize,
    UnMaximize,
    Minimize,
    /// Redraw the decorations.
    Refresh,
}

/// The location of a pointer that has entered decoration part `part` (`TOP`, `BOTTOM`,
/// `LEFT` or `RIGHT`); any other surface is no part of the decorations.
pub open spec fn part_location_spec(part: Option<usize>) -> Location {
    match part {
        Some(p) => if p == TOP {
            Location::Top
        } else if p == BOTTOM {
            Location::Bottom
        } else if p == LEFT {
            Location::Left
        } else if p == RIGHT {
            Location::Right
        } else {
            Location::Outside
        },
        None => Location::Outside,
    }
}

/// The location of a pointer that has entered decoration part `part`.
pub fn part_location(part: Option<usize>) -> (l: Location)
    ensures
        l == part_location_spec(part),
{
    match part {
        Some(p) => if p == TOP {
            Location::Top
        } else if p == BOTTOM {
            Location::Bottom
        } else if p == LEFT {
            Location::Left
        } else if p == RIGHT {
            Location::Right
        } else {
            Location::Outside
        },
        None => Location::Outside,
    }
}

/// Whether a coordinate of `x` fixed-point units lies at or before pixel boundary `k`.
pub open spec fn at_most(x: i32, k: int) -> bool {
    x <= k * FIXED_UNIT
}

/// Whether a coordinate of `x` fixed-point units lies at or after pixel boundary `k`.
pub open spec fn at_least(x: i32, k: int) -> bool {
    x >= k * FIXED_UNIT
}

/// Where in the title bar of a window `w` pixels wide a pointer at `(x, y)` (fixed point,
/// relative to the top part) is: on one of the buttons at its right end, 24 pixels wide
/// and 16 high each, or elsewhere on the bar.
pub open spec fn find_button_spec(x: i32, y: i32, w: u32) -> Location {
    if w >= 24 && !at_most(x, w + BORDER_SIZE - 24) && at_most(x, w + BORDER_SIZE) && at_most(
        y,
        BORDER_SIZE + 16,
    ) {
        Location::Button(UIButton::Close)
    } else if w >= 56 && !at_most(x, w + BORDER_SIZE - 56) && at_most(x, w + BORDER_SIZE - 32)
        && at_most(y, BORDER_SIZE + 16) {
        Location::Button(UIButton::Maximize)
    } else if w >= 88 && !at_most(x, w + BORDER_SIZE - 88) && at_most(x, w + BORDER_SIZE - 64)
        && at_most(y, BORDER_SIZE + 16) {
        Location::Button(UIButton::Minimize)
    } else {
        Location::TopBar
    }
}

/// Whether `x <= k` for a fixed-point coordinate `x` and a whole pixel boundary `k`.
fn fixed_at_most(x: i32, k: u32) -> (b: bool)
    ensures
        b == at_most(x, k as int),
{
    (x as i64) <= (k as i64) * FIXED_UNIT
}

/// Where in the title bar of a window `w` pixels wide a pointer at `(x, y)` is.
pub fn find_button(x: i32, y: i32, w: u32) -> (l: Location)
    requires
        w < u32::MAX,
    ensures
        l == find_button_spec(x, y, w),
{
    if (w >= 24) && !fixed_at_most(x, w + BORDER_SIZE - 24) && fixed_at_most(x, w + BORDER_SIZE)
        && fixed_at_most(y, BORDER_SIZE + 16) {
        Location::Button(UIButton::Close)
    } else if (w >= 56) && !fixed_at_most(x, w + BORDER_SIZE - 56) && fixed_at_most(
        x,
        w + BORDER_SIZE - 32,
    ) && fixed_at_most(y, BORDER_SIZE + 16) {
        Location::Button(UIButton::Maximize)
    } else if (w >= 88) && !fixed_at_most(x, w + BORDER_SIZE - 88) && fixed_at_most(
        x,
        w + BORDER_SIZE - 64,
    ) && fixed_at_most(y, BORDER_SIZE + 16) {
        Location::Button(UIButton::Minimize)
    } else {
        Location::TopBar
    }
}

/// Refines a pointer location on a window `width` pixels wide from the part it is on and
/// its position `(x, y)` (fixed point, relative to that part): the ends of the top part are
/// its corners, its top border row is the top edge and the rest is the title bar with its
/// buttons; the ends of the bottom part are its corners; the sides stay as they are.
pub open spec fn precise_location_spec(old: Location, width: u32, x: i32, y: i32) -> Location {
    match old {
        Location::Top | Location::TopRight | Location::TopLeft | Location::TopBar
        | Location::Button(_) => {
            if at_most(x, BORDER_SIZE as int) {
                Location::TopLeft
            } else if at_least(x, width + BORDER_SIZE) {
                Location::TopRight
            } else if at_most(y, BORDER_SIZE as int) {
                Location::Top
            } else {
                find_button_spec(x, y, width)
            }
        },
        Location::Bottom | Location::BottomLeft | Location::BottomRight => {
            if at_most(x, BORDER_SIZE as int) {
                Location::BottomLeft
            } else if at_least(x, width + BORDER_SIZE) {
                Location::BottomRight
            } else {
                Location::Bottom
            }
        },
        other => other,
    }
}

/// Whether `x >= k` for a fixed-point coordinate `x` and a whole pixel boundary `k`.
fn fixed_at_least(x: i32, k: u32) -> (b: bool)
    ensures
        b == at_least(x, k as int),
{
    (x as i64) >= (k as i64) * FIXED_UNIT
}

/// Whether `old` lies on the top or the bottom part, whose ends are told apart by position.
pub open spec fn on_top_or_bottom(old: Location) -> bool {
    match old {
        Location::Top | Location::TopRight | Location::TopLeft | Location::TopBar
        | Location::Button(_) | Location::Bottom | Location::BottomLeft
        | Location::BottomRight => true,
        _ => false,
    }
}

/// Whether refining location `old` at horizontal position `x` on a window `width` pixels
/// wide needs the right end `width + BORDER_SIZE` of the top or bottom part, which a `u32`
/// cannot hold when `width` is `u32::MAX`.
pub open spec fn location_overflows(old: Location, width: u32, x: i32) -> bool {
    &&& width == u32::MAX
    &&& on_top_or_bottom(old)
    &&& !at_most(x, BORDER_SIZE as int)
}

/// Whether refining location `old` at horizontal position `x` overflows.
pub fn location_overflow(old: Location, width: u32, x: i32) -> (b: bool)
    ensures
        b == location_overflows(old, width, x),
{
    let top_or_bottom = match old {
        Location::Top | Location::TopRight | Location::TopLeft | Location::TopBar
        | Location::Button(_) | Location::Bottom | Location::BottomLeft
        | Location::BottomRight => true,
        _ => false,
    };
    width == u32::MAX && top_or_bottom && !fixed_at_most(x, BORDER_SIZE)
}

/// Refines a pointer location from the part it is on and its position on that part.
pub fn precise_location(old: Location, width: u32, x: i32, y: i32) -> (l: Location)
    requires
        !location_overflows(old, width, x),
    ensures
        l == precise_location_spec(old, width, x, y),
{
    match old {
        Location::Top | Location::TopRight | Location::TopLeft | Location::TopBar
        | Location::Button(_) => {
            // top surface
            if fixed_at_most(x, BORDER_SIZE) {
                Location::TopLeft
            } else if fixed_at_least(x, width + BORDER_SIZE) {
                Location::TopRight
            } else if fixed_at_most(y, BORDER_SIZE) {
                Location::Top
            } else {
                find_button(x, y, width)
            }
        },
        Location::Bottom | Location::BottomLeft | Location::BottomRight => {
            if fixed_at_most(x, BORDER_SIZE) {
                Location::BottomLeft
            } else if fixed_at_least(x, width + BORDER_SIZE) {
                Location::BottomRight
            } else {
                Location::Bottom
            }
        },
        other => other,
    }
}

/// The name of the cursor image shown over `location`.
pub open spec fn cursor_name(location: Location) -> Seq<char> {
    match location {
        Location::Top => "top_side"@,
        Location::TopRight => "top_right_corner"@,
        Location::Right => "right_side"@,
        Location::BottomRight => "bottom_right_corner"@,
        Location::Bottom => "bottom_side"@,
        Location::BottomLeft => "bottom_left_corner"@,
        Location::Left => "left_side"@,
        Location::TopLeft => "top_left_corner"@,
        _ => "left_ptr"@,
    }
}

/// The cursor image a pointer changes to over `location`: the resize arrow of that edge
/// or corner, or the plain arrow anywhere else.
pub fn change_pointer(location: Location) -> (name: &'static str)
    ensures
        name@ == cursor_name(location),
{
    match location {
        Location::Top => "top_side",
        Location::TopRight => "top_right_corner",
        Location::Right => "right_side",
        Location::BottomRight => "bottom_right_corner",
        Location::Bottom => "bottom_side",
        Location::BottomLeft => "bottom_left_corner",
        Location::Left => "left_side",
        Location::TopLeft => "top_left_corner",
        _ => "left_ptr",
    }
}

/// What a left click at `location` asks of the window: a resize by that edge or corner,
/// a move from the title bar, or the button's action; the maximize button toggles.
pub open spec fn request_for_location_spec(location: Location, maximized: bool) -> Option<
    FrameAction,
> {
    match location {
        Location::Top => Some(FrameAction::Resize(Edge::Top)),
        Location::TopLeft => Some(FrameAction::Resize(Edge::TopLeft)),
        Location::Left => Some(FrameAction::Resize(Edge::Left)),
        Location::BottomLeft => Some(FrameAction::Resize(Edge::BottomLeft)),
        Location::Bottom => Some(FrameAction::Resize(Edge::Bottom)),
        Location::BottomRight => Some(FrameAction::Resize(Edge::BottomRight)),
        Location::Right => Some(FrameAction::Resize(Edge::Right)),
        Location::TopRight => Some(FrameAction::Resize(Edge::TopRight)),
        Location::TopBar => Some(FrameAction::Move),
        Location::Button(UIButton::Close) => Some(FrameAction::Close),
        Location::Button(UIButton::Maximize) => if maximized {
            Some(FrameAction::UnMaximize)
        } else {
            Some(FrameAction::Maximize)
        },
        Location::Button(UIButton::Minimize) => Some(FrameAction::Minimize),
        Location::Outside => None,
    }
}

/// What a left click at `location` asks of the window.
pub fn request_for_location(location: Location, maximized: bool) -> (r: Option<FrameAction>)
    ensures
        r == request_for_location_spec(location, maximized),
{
    match location {
        Location::Top => Some(FrameAction::Resize(Edge::Top)),
        Location::TopLeft => Some(FrameAction::Resize(Edge::TopLeft)),
        Location::Left => Some(FrameAction::Resize(Edge::Left)),
        Location::BottomLeft => Some(FrameAction::Resize(Edge::BottomLeft)),
        Location::Bottom => Some(FrameAction::Resize(Edge::Bottom)),
        Location::BottomRight => Some(FrameAction::Resize(Edge::BottomRight)),
        Location::Right => Some(FrameAction::Resize(Edge::Right)),
        Location::TopRight => Some(FrameAction::Resize(Edge::TopRight)),
        Location::TopBar => Some(FrameAction::Move),
        Location::Button(UIButton::Close) => Some(FrameAction::Close),
        Location::Button(UIButton::Maximize) => if maximized {
            Some(FrameAction::UnMaximize)
        } else {
            Some(FrameAction::Maximize)
        },
        Location::Button(UIButton::Minimize) => Some(FrameAction::Minimize),
        Location::Outside => None,
    }
}

/// Code of the left mouse button.
pub const LEFT_BUTTON: u32 = 0x110;

/// What the decorations remember of one pointer.
#[derive(Debug, Copy, Clone, PartialEq, Eq)]
pub struct PointerState {
    /// Where on the decorations the pointer is.
    pub location: Location,
    /// Last position of the pointer on the part it is on, in fixed point.
    pub position: (i32, i32),
}

/// An event of a pointer over the decorations, as the decorations see it.
#[derive(Debug, Copy, Clone, PartialEq, Eq, Structural)]
pub enum PointerInput {
    /// The pointer entered a surface: decoration part `part`, or none of them.
    Enter { serial: u32, part: Option<usize>, x: i32, y: i32 },
    Leave { serial: u32 },
    Motion { x: i32, y: i32 },
    Button { serial: u32, button: u32, pressed: bool },
    /// Anything else (axis events and the like).
    Other,
}

/// A cursor image to set: the one that `change_pointer` names for `location`.
#[derive(Debug, Copy, Clone, PartialEq, Eq, Structural)]
pub struct CursorChange {
    pub location: Location,
    pub serial: Option<u32>,
}

/// What the decorations do about one pointer event: first send `request` (with its
/// serial) to the window, then change the cursor.
#[derive(Debug, Copy, Clone, PartialEq, Eq)]
pub struct PointerReaction {
    pub request: Option<(FrameAction, u32)>,
    pub cursor: Option<CursorChange>,
}

/// Whether `l` is one of the title bar buttons.
pub open spec fn is_button(l: Location) -> bool {
    l is Button
}

/// The pointer state after `input`, on a window `width` pixels wide.
pub open spec fn pointer_next(state: PointerState, width: u32, input: PointerInput) -> PointerState {
    match input {
        PointerInput::Enter { serial, part, x, y } => PointerState {
            location: precise_location_spec(part_location_spec(part), width, x, y),
            position: (x, y),
        },
        PointerInput::Leave { .. } => PointerState {
            location: Location::Outside,
            position: state.position,
        },
        PointerInput::Motion { x, y } => PointerState {
            location: precise_location_spec(state.location, width, x, y),
            position: (x, y),
        },
        _ => state,
    }
}

/// What the decorations do about `input`: entering or leaving sets the cursor (with the
/// event's serial); a motion that changes the location sets the cursor and, when a button
/// is involved, asks for a redraw; a left-button press asks for the action of the place
/// it is on.
pub open spec fn pointer_reaction(
    state: PointerState,
    width: u32,
    maximized: bool,
    input: PointerInput,
) -> PointerReaction {
    let next = pointer_next(state, width, input);
    match input {
        PointerInput::Enter { serial, .. } => PointerReaction {
            request: None,
            cursor: Some(CursorChange { location: next.location, serial: Some(serial) }),
        },
        PointerInput::Leave { serial } => PointerReaction {
            request: None,
            cursor: Some(CursorChange { location: Location::Outside, serial: Some(serial) }),
        },
        PointerInput::Motion { .. } => if next.location != state.location {
            PointerReaction {
                request: if is_button(next.location) || is_button(state.location) {
                    Some((FrameAction::Refresh, 0u32))
                } else {
                    None
                },
                cursor: Some(CursorChange { location: next.location, serial: None }),
            }
        } else {
            PointerReaction { request: None, cursor: None }
        },
        PointerInput::Button { serial, button, pressed } => PointerReaction {
            request: if pressed && button == LEFT_BUTTON {
                match request_for_location_spec(state.location, maximized) {
                    Some(a) => Some((a, serial)),
                    None => None,
                }
            } else {
                None
            },
            cursor: None,
        },
        PointerInput::Other => PointerReaction { request: None, cursor: None },
    }
}

/// Whether stepping `state` by `input` on a window `width` pixels wide refines a location
/// whose right end overflows (see `location_overflows`).
pub open spec fn pointer_overflows(state: PointerState, width: u32, input: PointerInput) -> bool {
    match input {
        PointerInput::Enter { part, x, .. } => location_overflows(
            part_location_spec(part),
            width,
            x,
        ),
        PointerInput::Motion { x, .. } => location_overflows(state.location, width, x),
        _ => false,
    }
}

/// Whether stepping `state` by `input` on a window `width` pixels wide overflows.
pub fn pointer_event_overflows(state: PointerState, width: u32, input: PointerInput) -> (b: bool)
    ensures
        b == pointer_overflows(state, width, input),
{
    match input {
        PointerInput::Enter { part, x, .. } => location_overflow(part_location(part), width, x),
        PointerInput::Motion { x, .. } => location_overflow(state.location, width, x),
        _ => false,
    }
}

/// Steps the decorations' view of one pointer over a window `width` pixels wide.
pub fn pointer_event(state: PointerState, width: u32, maximized: bool, input: PointerInput) -> (r: (
    PointerState,
    PointerReaction,
))
    requires
        !pointer_overflows(state, width, input),
    ensures
        r.0 == pointer_next(state, width, input),
        r.1 == pointer_reaction(state, width, maximized, input),
{
    match input {
        PointerInput::Enter { serial, part, x, y } => {
            let location = precise_location(part_location(part), width, x, y);
            (
                PointerState { location, position: (x, y) },
                PointerReaction {
                    request: None,
                    cursor: Some(CursorChange { location, serial: Some(serial) }),
                },
            )
        },
        PointerInput::Leave { serial } => (
            PointerState { location: Location::Outside, position: state.position },
            PointerReaction {
                request: None,
                cursor: Some(CursorChange { location: Location::Outside, serial: Some(serial) }),
            },
        ),
        PointerInput::Motion { x, y } => {
            let newpos = precise_location(state.location, width, x, y);
            let next = PointerState { location: newpos, position: (x, y) };
            if newpos != state.location {
                let request = match (newpos, state.location) {
                    (Location::Button(_), _) | (_, Location::Button(_)) => Some(
                        (FrameAction::Refresh, 0u32),
                    ),
                    _ => None,
                };
                (
                    next,
                    PointerReaction {
                        request,
                        cursor: Some(CursorChange { location: newpos, serial: None }),
                    },
                )
            } else {
                (next, PointerReaction { request: None, cursor: None })
            }
        },
        PointerInput::Button { serial, button, pressed } => {
            let request = if pressed && button == LEFT_BUTTON {
                match request_for_location(state.location, maximized) {
                    Some(a) => Some((a, serial)),
                    None => None,
                }
            } else {
                None
            };
            (state, PointerReaction { request, cursor: None })
        },
        PointerInput::Other => (state, PointerReaction { request: None, cursor: None }),
    }
}

/// The size of a window whose content is `width` x `height`: the content with the side
/// borders, the bottom border and the title bar around it, unless they are hidden.
pub open spec fn with_borders(hidden: bool, width: int, height: int) -> (int, int) {
    if hidden {
        (width, height)
    } else {
        (width + 2 * BORDER_SIZE, height + BORDER_SIZE + HEADER_SIZE)
    }
}

/// The content size of a window that is `width` x `height` with its decorations.
pub open spec fn without_borders(hidden: bool, width: int, height: int) -> (int, int) {
    if hidden {
        (width, height)
    } else {
        (width - 2 * BORDER_SIZE, height - BORDER_SIZE - HEADER_SIZE)
    }
}

/// The plain state of a window's decorations.
#[derive(Debug, Copy, Clone, PartialEq, Eq)]
pub struct FrameState {
    /// Whether the window has the keyboard focus (drawn with the active border colour).
    pub active: bool,
    /// Whether the decorations are hidden.
    pub hidden: bool,
    pub maximized: bool,
    /// Size of the window content, width first.
    pub size: (u32, u32),
}

/// Telling decorations in state `f` whether the window is active: whether that is a
/// change (and calls for a redraw), and the state after.
pub open spec fn set_active_spec(f: FrameState, active: bool) -> (bool, FrameState) {
    (f.active != active, FrameState { active, ..f })
}

/// Telling decorations in state `f` whether the window is maximized: whether that is a
/// change, and the state after.
pub open spec fn set_maximized_spec(f: FrameState, maximized: bool) -> (bool, FrameState) {
    (f.maximized != maximized, FrameState { maximized, ..f })
}

impl FrameState {
    /// Decorations of a new window: inactive, shown, not maximized, 1 x 1.
    pub fn new() -> (f: FrameState)
        ensures
            f == (FrameState { active: false, hidden: false, maximized: false, size: (1, 1) }),
    {
        FrameState { active: false, hidden: false, maximized: false, size: (1, 1) }
    }

    /// Records whether the window is active; tells whether that changed (and the
    /// decorations need a redraw).
    pub fn set_active(&mut self, active: bool) -> (changed: bool)
        ensures
            (changed, *final(self)) == set_active_spec(*old(self), active),
    {
        if self.active != active {
            self.active = active;
            true
        } else {
            false
        }
    }

    /// Records whether the decorations are hidden.
    pub fn set_hidden(&mut self, hidden: bool)
        ensures
            *final(self) == (FrameState { hidden, ..*old(self) }),
    {
        self.hidden = hidden;
    }

    /// Records whether the window is maximized; tells whether that changed.
    pub fn set_maximized(&mut self, maximized: bool) -> (changed: bool)
        ensures
            (changed, *final(self)) == set_maximized_spec(*old(self), maximized),
    {
        if self.maximized != maximized {
            self.maximized = maximized;
            true
        } else {
            false
        }
    }

    /// Records the size of the window content.
    pub fn resize(&mut self, newsize: (u32, u32))
        ensures
            *final(self) == (FrameState { size: newsize, ..*old(self) }),
    {
        self.size = newsize;
    }

    /// The content size left of a window of `width` x `height` once the decorations are
    /// taken away: the side borders and the bottom border and title bar, unless hidden.
    pub fn subtract_borders(&self, width: i32, height: i32) -> (r: (i32, i32))
        requires
            !self.hidden ==> width - 2 * BORDER_SIZE >= i32::MIN && height - BORDER_SIZE
                - HEADER_SIZE >= i32::MIN,
        ensures
            (r.0 as int, r.1 as int) == without_borders(self.hidden, width as int, height as int),
    {
        if self.hidden {
            (width, height)
        } else {
            (width - 2 * (BORDER_SIZE as i32), height - BORDER_SIZE as i32 - HEADER_SIZE as i32)
        }
    }

    /// The window size needed for content of `width` x `height` with the decorations
    /// around it, unless hidden.
    pub fn add_borders(&self, width: i32, height: i32) -> (r: (i32, i32))
        requires
            !self.hidden ==> width + 2 * BORDER_SIZE <= i32::MAX && height + BORDER_SIZE
                + HEADER_SIZE <= i32::MAX,
        ensures
            (r.0 as int, r.1 as int) == with_borders(self.hidden, width as int, height as int),
    {
        if self.hidden {
            (width, height)
        } else {
            (width + 2 * (BORDER_SIZE as i32), height + BORDER_SIZE as i32 + HEADER_SIZE as i32)
        }
    }
}

} // verus!
