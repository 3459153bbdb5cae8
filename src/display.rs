use vstd::prelude::*;

verus! {

/// Shape of the mouse cursor an application may ask for.
#[derive(Clone, Copy, Debug, PartialEq, Eq, Structural)]
pub enum CursorIcon {
    Default,
    Help,
    Pointer,
    Wait,
    Crosshair,
    Text,
    Move,
    NotAllowed,
    EWResize,
    NSResize,
    NESWResize,
    NWSEResize,
}

/// Logical width of the iOS surface, in points.
pub const SCREEN_WIDTH: u32 = 640;

/// Logical height of the iOS surface, in points.
pub const SCREEN_HEIGHT: u32 = 800;

/// Mathematical model of the display capability state.
pub struct DisplayState {
    pub width: nat,
    pub height: nat,
    pub dpi_scale: nat,
    pub high_dpi: bool,
    pub cursor_visible: bool,
    pub cursor: CursorIcon,
    pub fullscreen: bool,
    pub quit_pending: bool,
    pub clipboard: Seq<char>,
}

impl DisplayState {
    /// The state of a freshly launched display: the fixed iOS surface, an
    /// unscaled density, a visible default cursor and an empty clipboard.
    pub open spec fn initial() -> DisplayState {
        DisplayState {
            width: SCREEN_WIDTH as nat,
            height: SCREEN_HEIGHT as nat,
            dpi_scale: 1,
            high_dpi: false,
            cursor_visible: true,
            cursor: CursorIcon::Default,
            fullscreen: false,
            quit_pending: false,
            clipboard: Seq::empty(),
        }
    }
}

/// A mutating capability request, as the model sees it.
pub enum DisplayOp {
    OrderQuit,
    RequestQuit,
    CancelQuit,
    SetCursorGrab(bool),
    ShowMouse(bool),
    SetMouseCursor(CursorIcon),
    SetWindowSize(nat, nat),
    SetFullscreen(bool),
    ClipboardSet(Seq<char>),
}

/// The state after one capability request. Cursor grab, window size and the
/// quit request have no native effect on iOS and change nothing.
pub open spec fn apply(s: DisplayState, op: DisplayOp) -> DisplayState {
    match op {
        DisplayOp::OrderQuit => DisplayState { quit_pending: true, ..s },
        DisplayOp::RequestQuit => s,
        DisplayOp::CancelQuit => DisplayState { quit_pending: false, ..s },
        DisplayOp::SetCursorGrab(_) => s,
        DisplayOp::ShowMouse(show) => DisplayState { cursor_visible: show, ..s },
        DisplayOp::SetMouseCursor(cursor) => DisplayState { cursor, ..s },
        DisplayOp::SetWindowSize(_, _) => s,
        DisplayOp::SetFullscreen(fullscreen) => DisplayState { fullscreen, ..s },
        DisplayOp::ClipboardSet(text) => DisplayState { clipboard: text, ..s },
    }
}

/// The state after a sequence of capability requests, in order.
pub open spec fn apply_all(s: DisplayState, ops: Seq<DisplayOp>) -> DisplayState
    decreases ops.len(),
{
    if ops.len() == 0 {
        s
    } else {
        apply_all(apply(s, ops[0]), ops.drop_first())
    }
}

/// Asking for any capability change twice in a row leaves the state it
/// leaves when asked once.
pub proof fn lemma_request_idempotent(s: DisplayState, op: DisplayOp)
    ensures
        apply(apply(s, op), op) == apply(s, op),
{
}

/// A request that leaves the state as it finds it can be dropped from any
/// sequence of requests without changing the state the sequence ends in.
pub proof fn lemma_redundant_request_dropped(
    s: DisplayState,
    before: Seq<DisplayOp>,
    op: DisplayOp,
    after: Seq<DisplayOp>,
)
    requires
        apply(apply_all(s, before), op) == apply_all(s, before),
    ensures
        apply_all(s, before + seq![op] + after) == apply_all(s, before + after),
    decreases before.len(),
{
    if before.len() == 0 {
        assert((before + seq![op] + after).drop_first() =~= after);
        assert(before + after =~= after);
    } else {
        let t = apply(s, before[0]);
        let rest = before.drop_first();
        assert(apply_all(s, before) == apply_all(t, rest));
        lemma_redundant_request_dropped(t, rest, op, after);
        assert((before + seq![op] + after).drop_first() =~= rest + seq![op] + after);
        assert((before + after).drop_first() =~= rest + after);
    }
}

/// Display capabilities of the single iOS window: sizes, density, cursor,
/// clipboard, fullscreen and the quit negotiation. No operation blocks or
/// fails; features iOS has no native counterpart for are accepted as no-ops.
pub struct IosDisplay {
    width: u32,
    height: u32,
    dpi_scale: u32,
    high_dpi: bool,
    cursor_visible: bool,
    cursor: CursorIcon,
    fullscreen: bool,
    quit_pending: bool,
    clipboard: String,
}

impl View for IosDisplay {
    type V = DisplayState;

    closed spec fn view(&self) -> DisplayState {
        DisplayState {
            width: self.width as nat,
            height: self.height as nat,
            dpi_scale: self.dpi_scale as nat,
            high_dpi: self.high_dpi,
            cursor_visible: self.cursor_visible,
            cursor: self.cursor,
            fullscreen: self.fullscreen,
            quit_pending: self.quit_pending,
            clipboard: self.clipboard@,
        }
    }
}

impl IosDisplay {
    pub fn new() -> (d: IosDisplay)
        ensures
            d@ == DisplayState::initial(),
    {
        IosDisplay {
            width: SCREEN_WIDTH,
            height: SCREEN_HEIGHT,
            dpi_scale: 1,
            high_dpi: false,
            cursor_visible: true,
            cursor: CursorIcon::Default,
            fullscreen: false,
            quit_pending: false,
            clipboard: String::new(),
        }
    }

    /// Logical size of the surface as (width, height).
    pub fn screen_size(&self) -> (r: (u32, u32))
        ensures
            r.0 as nat == self@.width,
            r.1 as nat == self@.height,
    {
        (self.width, self.height)
    }

    /// Number of physical pixels per logical point.
    pub fn dpi_scale(&self) -> (r: u32)
        ensures
            r as nat == self@.dpi_scale,
    {
        self.dpi_scale
    }

    pub fn high_dpi(&self) -> (r: bool)
        ensures
            r == self@.high_dpi,
    {
        self.high_dpi
    }

    /// Whether a quit has been ordered and not cancelled since.
    pub fn quit_pending(&self) -> (r: bool)
        ensures
            r == self@.quit_pending,
    {
        self.quit_pending
    }

    pub fn cursor_visible(&self) -> (r: bool)
        ensures
            r == self@.cursor_visible,
    {
        self.cursor_visible
    }

    pub fn mouse_cursor(&self) -> (r: CursorIcon)
        ensures
            r == self@.cursor,
    {
        self.cursor
    }

    pub fn fullscreen(&self) -> (r: bool)
        ensures
            r == self@.fullscreen,
    {
        self.fullscreen
    }

    /// Marks a quit as pending, unconditionally.
    pub fn order_quit(&mut self)
        ensures
            final(self)@ == apply(old(self)@, DisplayOp::OrderQuit),
    {
        self.quit_pending = true;
    }

    /// Hook point where the embedding application would be asked whether it
    /// may exit; the bridge itself changes nothing.
    pub fn request_quit(&mut self)
        ensures
            final(self)@ == apply(old(self)@, DisplayOp::RequestQuit),
    {
    }

    /// Clears a pending quit.
    pub fn cancel_quit(&mut self)
        ensures
            final(self)@ == apply(old(self)@, DisplayOp::CancelQuit),
    {
        self.quit_pending = false;
    }

    /// iOS has no pointer capture: accepted and ignored.
    pub fn set_cursor_grab(&mut self, grab: bool)
        ensures
            final(self)@ == apply(old(self)@, DisplayOp::SetCursorGrab(grab)),
    {
    }

    pub fn show_mouse(&mut self, show: bool)
        ensures
            final(self)@ == apply(old(self)@, DisplayOp::ShowMouse(show)),
    {
        self.cursor_visible = show;
    }

    pub fn set_mouse_cursor(&mut self, cursor: CursorIcon)
        ensures
            final(self)@ == apply(old(self)@, DisplayOp::SetMouseCursor(cursor)),
    {
        self.cursor = cursor;
    }

    /// The window always covers the device screen: accepted and ignored.
    pub fn set_window_size(&mut self, new_width: u32, new_height: u32)
        ensures
            final(self)@ == apply(old(self)@, DisplayOp::SetWindowSize(new_width as nat, new_height as nat)),
    {
    }

    pub fn set_fullscreen(&mut self, fullscreen: bool)
        ensures
            final(self)@ == apply(old(self)@, DisplayOp::SetFullscreen(fullscreen)),
    {
        self.fullscreen = fullscreen;
    }

    /// Current clipboard text, or `None` when the clipboard is empty.
    pub fn clipboard_get(&mut self) -> (r: Option<String>)
        ensures
            final(self)@ == old(self)@,
            old(self)@.clipboard.len() == 0 ==> r is None,
            old(self)@.clipboard.len() > 0 ==> r is Some && r->0@ == old(self)@.clipboard,
    {
        if self.clipboard.as_str().is_empty() {
            None
        } else {
            Some(self.clipboard.clone())
        }
    }

    /// Replaces the clipboard text.
    pub fn clipboard_set(&mut self, data: &str)
        ensures
            final(self)@ == apply(old(self)@, DisplayOp::ClipboardSet(data@)),
    {
        self.clipboard = data.to_owned();
    }
}

} // verus!
