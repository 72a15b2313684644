//! The tray window's geometry and input: DPI scaling, where the panel goes,
//! hover visibility, tray and menu events, and the autostart command line.
use vstd::prelude::*;
use crate::text::{decimal, decimal_text};

verus! {

/// A point in screen pixels.
#[derive(Clone, Copy, Debug, PartialEq, Eq, Structural)]
pub struct Point {
    pub x: i32,
    pub y: i32,
}

/// A rectangle in screen pixels; `right` and `bottom` are exclusive.
#[derive(Clone, Copy, Debug, PartialEq, Eq, Structural)]
pub struct Rect {
    pub left: i32,
    pub top: i32,
    pub right: i32,
    pub bottom: i32,
}

/// Whether the point lies inside the rectangle.
pub fn point_in_rect(point: Point, rect: Rect) -> (r: bool)
    ensures
        r == (rect.left <= point.x < rect.right && rect.top <= point.y < rect.bottom),
{
    point.x >= rect.left && point.x < rect.right && point.y >= rect.top && point.y < rect.bottom
}

/// The id of the application's one tray icon.
pub const TRAY_ID: u32 = 1;

/// The identity that every `Shell_NotifyIconW` call carries: the owning
/// window's handle and the icon's id.
#[derive(Clone, Copy, Debug, PartialEq, Eq, Structural)]
pub struct TrayIconData {
    pub window: isize,
    pub id: u32,
}

/// The tray icon's identity for a window.
pub fn tray_data(window: isize) -> (r: TrayIconData)
    ensures
        r.window == window,
        r.id == TRAY_ID,
{
    TrayIconData { window, id: TRAY_ID }
}

/// The pointer-sized value that names an integer resource
/// (`MAKEINTRESOURCEW`).
pub fn resource_name(resource: u16) -> (r: usize)
    ensures
        r == resource,
{
    resource as usize
}

/// The autostart command line for an executable path: the path in double
/// quotes.
pub fn quote_executable(path: &str) -> (r: String)
    ensures
        r@ == "\""@ + path@ + "\""@,
{
    let mut text = String::from_str("\"");
    text.append(path);
    text.append("\"");
    text
}

/// The message shown when the autostart entry cannot be changed.
pub fn autostart_error_message(code: u32) -> (r: String)
    ensures
        r@ == "Не удалось изменить автозапуск Windows (код "@ + decimal(code as int) + ")."@,
{
    let mut text = String::from_str("Не удалось изменить автозапуск Windows (код ");
    text.append(decimal_text(code as i64).as_str());
    text.append(").");
    text
}

/// The message shown when the executable's path cannot be found.
pub fn executable_path_error_message(detail: &str) -> (r: String)
    ensures
        r@ == "Не удалось определить путь приложения: "@ + detail@,
{
    let mut text = String::from_str("Не удалось определить путь приложения: ");
    text.append(detail);
    text
}

/// The message shown when the tray application cannot start.
pub fn startup_error_message(detail: &str) -> (r: String)
    ensures
        r@ == "Codex Tray не удалось запустить:\n\n"@ + detail@,
{
    let mut text = String::from_str("Codex Tray не удалось запустить:\n\n");
    text.append(detail);
    text
}

/// The panel's opacity: slightly translucent unless the
/// `EnableTransparency` registry value is present and zero.
pub fn panel_alpha(enable_transparency: Option<u32>) -> (r: u8)
    ensures
        r == if enable_transparency == Some(0u32) { 255u8 } else { 238u8 },
{
    match enable_transparency {
        Some(0) => 255,
        _ => 238,
    }
}

// ---------------------------------------------------------------------------
// Geometry
// ---------------------------------------------------------------------------

/// Integer division rounding toward zero, as Rust's `/` does.
pub open spec fn div_toward_zero(a: int, b: int) -> int {
    if a >= 0 {
        a / b
    } else {
        -((-a) / b)
    }
}

/// The DPI the panel scales by: the window's, at least 96.
pub open spec fn effective_dpi(dpi: u32) -> int {
    if dpi >= 96 {
        dpi as int
    } else {
        96
    }
}

/// Logical pixels at 96 DPI scaled to `dpi`, rounded half up.
pub open spec fn scaled(logical_pixels: i32, dpi: u32) -> i32 {
    div_toward_zero(logical_pixels * effective_dpi(dpi) + 48, 96) as i32
}

fn div_by_96(a: i64) -> (r: i64)
    ensures
        r == div_toward_zero(a as int, 96),
{
    if a >= 0 {
        ((a as i128) / 96) as i64
    } else {
        let q = (-(a as i128)) / 96;
        -(q as i64)
    }
}

/// Scales logical pixels to the window's DPI (at least 96).
pub fn scale_for_dpi(logical_pixels: i32, dpi: u32) -> (r: i32)
    ensures
        r == scaled(logical_pixels, dpi),
{
    let dpi: i64 = if dpi >= 96 {
        dpi as i64
    } else {
        96
    };
    assert(-2147483648 * 4294967295 <= logical_pixels * dpi <= 2147483647 * 4294967295)
        by (nonlinear_arith)
        requires
            -2147483648 <= logical_pixels <= 2147483647,
            96 <= dpi <= 4294967295,
    ;
    let product = logical_pixels as i64 * dpi + 48;
    #[verifier::truncate]
    (div_by_96(product) as i32)
}

/// The panel's logical size and margin from the screen edge.
pub const WINDOW_WIDTH: i32 = 320;
pub const WINDOW_HEIGHT: i32 = 195;
pub const PANEL_MARGIN: i32 = 16;

/// Where the panel's top-left corner goes: the bottom-right corner of the
/// work area (or of a 1920x1080 screen where it is unknown), less the scaled
/// panel size and margin.
pub open spec fn panel_origin_model(work: Option<Rect>, dpi: u32) -> (int, int) {
    let area = match work {
        Some(r) => r,
        None => Rect { left: 0, top: 0, right: 1920, bottom: 1080 },
    };
    (
        area.right - scaled(WINDOW_WIDTH, dpi) - scaled(PANEL_MARGIN, dpi),
        area.bottom - scaled(WINDOW_HEIGHT, dpi) - scaled(PANEL_MARGIN, dpi),
    )
}

/// The panel's top-left corner next to the tray, with its scaled size.
pub fn panel_placement(work: Option<Rect>, dpi: u32) -> (r: (Point, i32, i32))
    requires
        ({
            let area = match work {
                Some(r) => r,
                None => Rect { left: 0, top: 0, right: 1920, bottom: 1080 },
            };
            &&& i32::MIN <= area.right - scaled(WINDOW_WIDTH, dpi) <= i32::MAX
            &&& i32::MIN <= area.bottom - scaled(WINDOW_HEIGHT, dpi) <= i32::MAX
        }),
        i32::MIN <= panel_origin_model(work, dpi).0 <= i32::MAX,
        i32::MIN <= panel_origin_model(work, dpi).1 <= i32::MAX,
    ensures
        r.0.x == panel_origin_model(work, dpi).0,
        r.0.y == panel_origin_model(work, dpi).1,
        r.1 == scaled(WINDOW_WIDTH, dpi),
        r.2 == scaled(WINDOW_HEIGHT, dpi),
{
    let area = match work {
        Some(r) => r,
        None => Rect { left: 0, top: 0, right: 1920, bottom: 1080 },
    };
    let height = scale_for_dpi(WINDOW_HEIGHT, dpi);
    let margin = scale_for_dpi(PANEL_MARGIN, dpi);
    let width = scale_for_dpi(WINDOW_WIDTH, dpi);
    let x = area.right - width - margin;
    let y = area.bottom - height - margin;
    (Point { x, y }, width, height)
}

/// The origin that centres a `width` x `height` text in `rect`.
pub open spec fn centered_origin_model(rect: Rect, width: i32, height: i32) -> (int, int) {
    (
        rect.left + div_toward_zero(rect.right - rect.left - width, 2),
        rect.top + div_toward_zero(rect.bottom - rect.top - height, 2),
    )
}

fn div_i32_by_two(a: i32) -> (r: i32)
    ensures
        r == div_toward_zero(a as int, 2),
{
    if a >= 0 {
        a / 2
    } else {
        let q = (-(a as i64)) / 2;
        -(q as i32)
    }
}

/// Where to draw a text of the given extent so that it is centred in `rect`.
pub fn centered_text_origin(rect: Rect, width: i32, height: i32) -> (r: Point)
    requires
        i32::MIN <= rect.right - rect.left <= i32::MAX,
        i32::MIN <= rect.bottom - rect.top <= i32::MAX,
        i32::MIN <= rect.right - rect.left - width <= i32::MAX,
        i32::MIN <= rect.bottom - rect.top - height <= i32::MAX,
        i32::MIN <= centered_origin_model(rect, width, height).0 <= i32::MAX,
        i32::MIN <= centered_origin_model(rect, width, height).1 <= i32::MAX,
    ensures
        r.x == centered_origin_model(rect, width, height).0,
        r.y == centered_origin_model(rect, width, height).1,
{
    let x = rect.left + div_i32_by_two(rect.right - rect.left - width);
    let y = rect.top + div_i32_by_two(rect.bottom - rect.top - height);
    Point { x, y }
}

fn div_i32_by_hundred(a: i32) -> (r: i32)
    ensures
        r == div_toward_zero(a as int, 100),
{
    if a >= 0 {
        a / 100
    } else {
        let q = (-(a as i64)) / 100;
        -(q as i32)
    }
}

/// The width of the filled part of the quota bar: the track width times the
/// remaining percentage, rounded toward zero (not positive where the track
/// has no width, and then nothing is filled).
pub fn track_fill_width(track: Rect, remaining_percent: u32) -> (r: i32)
    requires
        remaining_percent <= i32::MAX,
        i32::MIN <= track.right - track.left <= i32::MAX,
        i32::MIN <= (track.right - track.left) * remaining_percent <= i32::MAX,
    ensures
        r == div_toward_zero((track.right - track.left) * remaining_percent, 100),
{
    let width = track.right - track.left;
    div_i32_by_hundred(width * remaining_percent as i32)
}

/// The corner radius a rounded rectangle can take: at least one pixel, at
/// most half its width and half its height.
pub fn clamped_corner_radius(rect: Rect, radius: i32) -> (r: i32)
    requires
        i32::MIN <= rect.right - rect.left <= i32::MAX,
        i32::MIN <= rect.bottom - rect.top <= i32::MAX,
    ensures
        ({
            let at_least_one = if radius >= 1 { radius as int } else { 1 };
            let half_width = div_toward_zero(rect.right - rect.left, 2);
            let half_height = div_toward_zero(rect.bottom - rect.top, 2);
            let by_width = if at_least_one <= half_width { at_least_one } else { half_width };
            r == if by_width <= half_height { by_width } else { half_height }
        }),
{
    let at_least_one = if radius >= 1 { radius } else { 1 };
    let half_width = div_i32_by_two(rect.right - rect.left);
    let half_height = div_i32_by_two(rect.bottom - rect.top);
    let by_width = if at_least_one <= half_width { at_least_one } else { half_width };
    if by_width <= half_height { by_width } else { half_height }
}

// ---------------------------------------------------------------------------
// Input
// ---------------------------------------------------------------------------

pub const WM_MOUSEMOVE: u32 = 0x0200;
pub const WM_RBUTTONUP: u32 = 0x0205;
pub const MENU_AUTOSTART: usize = 1001;
pub const MENU_EXIT: usize = 1002;
pub const MENU_REFRESH: usize = 1003;
pub const MENU_OPEN_FOLDER: usize = 1004;

/// What a tray notification asks for.
#[derive(Clone, Copy, Debug, PartialEq, Eq, Structural)]
pub enum TrayEvent {
    /// The pointer moved over the icon: show the panel.
    Hover,
    /// The right button was released over the icon: hide the panel, open the menu.
    ContextMenu,
    /// Anything else.
    Other,
}

/// The low 16 bits of a message parameter, where Win32 packs the event.
pub open spec fn low_word(value: int) -> int {
    value % 65536
}

/// The event a tray notification carries in the low word of its `lParam`.
pub fn tray_event(lparam: isize) -> (r: TrayEvent)
    ensures
        r == if low_word(lparam as int) == WM_MOUSEMOVE {
            TrayEvent::Hover
        } else if low_word(lparam as int) == WM_RBUTTONUP {
            TrayEvent::ContextMenu
        } else {
            TrayEvent::Other
        },
{
    #[verifier::truncate]
    let bits = lparam as u32;
    let event = bits & 0xffff;
    assert(event == bits % 65536) by (bit_vector)
        requires
            event == bits & 0xffff,
    ;
    assert(bits as int % 65536 == lparam as int % 65536) by {
        lemma_truncated_low_word(lparam);
    }
    if event == WM_MOUSEMOVE {
        TrayEvent::Hover
    } else if event == WM_RBUTTONUP {
        TrayEvent::ContextMenu
    } else {
        TrayEvent::Other
    }
}

proof fn lemma_truncated_low_word(x: isize)
    ensures
        (x as u32) as int % 65536 == x as int % 65536,
{
    assert((x as u32) & 0xffff == (x as u64 as u32) & 0xffff) by (bit_vector);
    assert(((x as i64) as u32) & 0xffff == (x as i64) & 0xffff) by (bit_vector);
    assert((x as u32) as int % 65536 == ((x as u32) & 0xffff)) by (bit_vector);
    assert(((x as i64) & 0xffff) == (x as i64) as int % 65536) by (bit_vector);
}

/// What a menu command does.
#[derive(Clone, Copy, Debug, PartialEq, Eq, Structural)]
pub enum MenuAction {
    ToggleAutostart,
    Exit,
    Refresh,
    OpenFolder,
    Ignore,
}

/// The action for a menu command id.
pub fn menu_action(command: usize) -> (r: MenuAction)
    ensures
        r == if command == MENU_AUTOSTART {
            MenuAction::ToggleAutostart
        } else if command == MENU_EXIT {
            MenuAction::Exit
        } else if command == MENU_REFRESH {
            MenuAction::Refresh
        } else if command == MENU_OPEN_FOLDER {
            MenuAction::OpenFolder
        } else {
            MenuAction::Ignore
        },
{
    if command == MENU_AUTOSTART {
        MenuAction::ToggleAutostart
    } else if command == MENU_EXIT {
        MenuAction::Exit
    } else if command == MENU_REFRESH {
        MenuAction::Refresh
    } else if command == MENU_OPEN_FOLDER {
        MenuAction::OpenFolder
    } else {
        MenuAction::Ignore
    }
}

/// The command id of a `WM_COMMAND` message: the low word of its `wParam`.
pub fn command_id(wparam: usize) -> (r: usize)
    ensures
        r == low_word(wparam as int),
{
    let id = wparam & 0xffff;
    assert(id == wparam % 65536) by (bit_vector)
        requires
            id == wparam & 0xffff,
    ;
    id
}

// ---------------------------------------------------------------------------
// Hover
// ---------------------------------------------------------------------------

/// How long the pointer must be away from the icon before the panel hides.
pub const HOVER_HIDE_DELAY_MS: u64 = 150;

/// Whether the panel is shown, when the pointer was last over the icon (in
/// milliseconds of a monotonic clock), and whether hovering is ignored until
/// the pointer leaves the icon (after the context menu).
#[derive(Clone, Copy, Debug, PartialEq, Eq, Structural)]
pub struct HoverState {
    pub visible: bool,
    pub last_tray_hover: Option<u64>,
    pub suppress_hover_until_leave: bool,
}

/// The pointer was over the icon at least the delay before `now_ms`.
pub open spec fn hover_expired(last_hover: Option<u64>, now_ms: u64) -> bool {
    match last_hover {
        Some(h) => now_ms - h >= HOVER_HIDE_DELAY_MS,
        None => false,
    }
}

/// What the pointer did, as the panel sees it: it moved over the tray area
/// (`Hover`), or the periodic check ran (`Tick`); `over_icon` says whether it
/// was over the icon itself.
pub enum PointerEvent {
    Hover { over_icon: bool, now_ms: u64 },
    Tick { over_icon: bool, now_ms: u64 },
}

impl PointerEvent {
    pub open spec fn over_icon(self) -> bool {
        match self {
            PointerEvent::Hover { over_icon, .. } => over_icon,
            PointerEvent::Tick { over_icon, .. } => over_icon,
        }
    }
}

/// The hover state after a pointer event, and whether the panel is shown
/// (for `Hover`) or hidden (for `Tick`).
pub open spec fn pointer_step(s: HoverState, e: PointerEvent) -> (HoverState, bool) {
    match e {
        PointerEvent::Hover { over_icon, now_ms } => if !over_icon || s.suppress_hover_until_leave {
            (s, false)
        } else {
            (HoverState { visible: true, last_tray_hover: Some(now_ms), ..s }, !s.visible)
        },
        PointerEvent::Tick { over_icon, now_ms } => if over_icon {
            (
                HoverState {
                    last_tray_hover: if s.suppress_hover_until_leave {
                        s.last_tray_hover
                    } else {
                        Some(now_ms)
                    },
                    ..s
                },
                false,
            )
        } else {
            let hide = s.visible && hover_expired(s.last_tray_hover, now_ms);
            (HoverState { visible: s.visible && !hide, suppress_hover_until_leave: false, ..s }, hide)
        },
    }
}

/// The hover state after a run of pointer events.
pub open spec fn after_pointer_events(s: HoverState, events: Seq<PointerEvent>) -> HoverState
    decreases events.len(),
{
    if events.len() == 0 {
        s
    } else {
        pointer_step(after_pointer_events(s, events.drop_last()), events.last()).0
    }
}

/// The state the context menu leaves: hidden, no hover recorded, hovering
/// ignored until the pointer leaves the icon.
pub open spec fn menu_suppressed() -> HoverState {
    HoverState { visible: false, last_tray_hover: None, suppress_hover_until_leave: true }
}

/// After a right-click the panel stays hidden while the pointer remains over
/// the icon: however many hovers and periodic checks follow, as long as each
/// finds the pointer over the icon, none shows or hides the panel and the
/// state stays the one the context menu left.
pub proof fn lemma_context_menu_suppresses_hover(events: Seq<PointerEvent>)
    requires
        forall|i: int| 0 <= i < events.len() ==> (#[trigger] events[i]).over_icon(),
    ensures
        after_pointer_events(menu_suppressed(), events) == menu_suppressed(),
        forall|i: int|
            0 <= i < events.len() ==> pointer_step(
                after_pointer_events(menu_suppressed(), events.take(i)),
                #[trigger] events[i],
            ) == (menu_suppressed(), false),
    decreases events.len(),
{
    if events.len() > 0 {
        let prefix = events.drop_last();
        assert forall|i: int| 0 <= i < prefix.len() implies (#[trigger] prefix[i]).over_icon() by {
            assert(prefix[i] == events[i]);
        }
        lemma_context_menu_suppresses_hover(prefix);
        assert(events.last().over_icon());
        assert forall|i: int| 0 <= i < events.len() implies pointer_step(
            after_pointer_events(menu_suppressed(), events.take(i)),
            #[trigger] events[i],
        ) == (menu_suppressed(), false) by {
            let before = events.take(i);
            assert forall|j: int| 0 <= j < before.len() implies (#[trigger] before[j]).over_icon() by {
                assert(before[j] == events[j]);
            }
            lemma_context_menu_suppresses_hover(before);
            assert(events[i].over_icon());
        }
    }
}

/// Without the suppression, a hover over the icon shows the panel (unless it
/// is already shown) and records the hover; a periodic check that finds the
/// pointer away from the icon ends the suppression.
pub proof fn lemma_hover_shows_panel(s: HoverState, now_ms: u64)
    ensures
        !s.suppress_hover_until_leave ==> pointer_step(
            s,
            PointerEvent::Hover { over_icon: true, now_ms },
        ) == (HoverState { visible: true, last_tray_hover: Some(now_ms), suppress_hover_until_leave: false }, !s.visible),
        !pointer_step(s, PointerEvent::Tick { over_icon: false, now_ms }).0.suppress_hover_until_leave,
{
}

impl HoverState {
    /// Hidden, never hovered.
    pub fn new() -> (r: HoverState)
        ensures
            !r.visible,
            r.last_tray_hover is None,
            !r.suppress_hover_until_leave,
    {
        HoverState { visible: false, last_tray_hover: None, suppress_hover_until_leave: false }
    }

    /// The pointer moved over the tray area at `now_ms`; `over_icon` says
    /// whether it is over the icon itself. Returns whether to place and show
    /// the panel.
    pub fn on_tray_hover(&mut self, over_icon: bool, now_ms: u64) -> (show: bool)
        ensures
            (*final(self), show) == pointer_step(*old(self), PointerEvent::Hover { over_icon, now_ms }),
            !over_icon || old(self).suppress_hover_until_leave ==> *final(self) == *old(self) && !show,
            over_icon && !old(self).suppress_hover_until_leave ==> final(self).last_tray_hover
                == Some(now_ms) && final(self).visible && final(self).suppress_hover_until_leave
                == old(self).suppress_hover_until_leave && show == !old(self).visible,
    {
        if !over_icon || self.suppress_hover_until_leave {
            return false;
        }
        self.last_tray_hover = Some(now_ms);
        if !self.visible {
            self.visible = true;
            true
        } else {
            false
        }
    }

    /// The periodic check at `now_ms`. Returns whether to hide the panel: it
    /// hides once the pointer has been away from the icon for the delay.
    pub fn on_timer(&mut self, over_icon: bool, now_ms: u64) -> (hide: bool)
        ensures
            (*final(self), hide) == pointer_step(*old(self), PointerEvent::Tick { over_icon, now_ms }),
            over_icon ==> !hide && final(self).visible == old(self).visible
                && final(self).suppress_hover_until_leave == old(self).suppress_hover_until_leave
                && final(self).last_tray_hover == if old(self).suppress_hover_until_leave {
                old(self).last_tray_hover
            } else {
                Some(now_ms)
            },
            !over_icon ==> {
                &&& !final(self).suppress_hover_until_leave
                &&& final(self).last_tray_hover == old(self).last_tray_hover
                &&& hide == (old(self).visible && hover_expired(old(self).last_tray_hover, now_ms))
                &&& final(self).visible == (old(self).visible && !hide)
            },
    {
        if over_icon {
            if !self.suppress_hover_until_leave {
                self.last_tray_hover = Some(now_ms);
            }
            return false;
        }
        self.suppress_hover_until_leave = false;
        let elapsed = match self.last_tray_hover {
            Some(hover) => Some(now_ms.saturating_sub(hover)),
            None => None,
        };
        let expired = match elapsed {
            Some(e) => e >= HOVER_HIDE_DELAY_MS,
            None => false,
        };
        if self.visible && expired {
            self.visible = false;
            true
        } else {
            false
        }
    }

    /// The context menu opens: the panel hides and ignores hovering until the
    /// pointer leaves the icon.
    pub fn on_context_menu(&mut self)
        ensures
            *final(self) == menu_suppressed(),
            !final(self).visible,
            final(self).last_tray_hover is None,
            final(self).suppress_hover_until_leave,
    {
        self.visible = false;
        self.last_tray_hover = None;
        self.suppress_hover_until_leave = true;
    }
}

} // verus!
