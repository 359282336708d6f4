//! Sizes and places: scaling to the display, the size of the widget, where it
//! may stand on the screen.
use vstd::prelude::*;

verus! {

/// The height of the title bar. This and the lengths below are in pixels at 96
/// DPI.
pub const TITLEBAR_H: i32 = 34;

/// The space around the cards.
pub const CONTENT_PAD: i32 = 14;

/// The width of a card beside another.
pub const SERVICE_CARD_W: i32 = 214;

/// The width of a card that has a row to itself.
pub const SERVICE_CARD_W_SINGLE: i32 = 274;

/// The height of a card.
pub const SERVICE_CARD_H: i32 = 126;

/// The space between two cards.
pub const SERVICE_GAP: i32 = 12;

/// The width and height of the close button.
pub const CLOSE_BUTTON: i32 = 22;

/// The DPI at which lengths are designed.
pub const DESIGN_DPI: u32 = 96;

/// A rectangle, without its right and bottom edge.
#[derive(Clone, Copy, PartialEq, Eq, Structural, Debug)]
pub struct Rect {
    pub left: i32,
    pub top: i32,
    pub right: i32,
    pub bottom: i32,
}

/// A point on the screen.
#[derive(Clone, Copy, PartialEq, Eq, Structural, Debug)]
pub struct Point {
    pub x: i32,
    pub y: i32,
}

/// The screen that all displays make up together.
#[derive(Clone, Copy, PartialEq, Eq, Structural, Debug)]
pub struct Screen {
    pub x: i32,
    pub y: i32,
    pub width: i32,
    pub height: i32,
}

/// The number can be an `i32`.
pub open spec fn fits(n: int) -> bool {
    i32::MIN <= n <= i32::MAX
}

/// The `i32` nearest to a number.
pub open spec fn saturated(n: int) -> int {
    if n > i32::MAX {
        i32::MAX as int
    } else if n < i32::MIN {
        i32::MIN as int
    } else {
        n
    }
}

/// `n / d` to the nearest integer, halves away from zero.
pub open spec fn rounded_quotient(n: int, d: int) -> int {
    if n >= 0 {
        (2 * n + d) / (2 * d)
    } else {
        -((2 * -n + d) / (2 * d))
    }
}

/// The length at `dpi` of `px` pixels at 96 DPI.
pub open spec fn scaled(px: int, dpi: int) -> int {
    saturated(rounded_quotient(px * dpi, 96))
}

/// The larger of two numbers.
pub open spec fn larger(a: int, b: int) -> int {
    if a >= b {
        a
    } else {
        b
    }
}

/// The number in `low..=high` that is nearest to `n`.
pub open spec fn held(n: int, low: int, high: int) -> int {
    if n < low {
        low
    } else if n > high {
        high
    } else {
        n
    }
}

/// Scales a base pixel value (designed at 96 DPI) to `dpi`: to the nearest
/// pixel, halves away from zero, and within the range of an `i32`.
pub fn sc(px: i32, dpi: u32) -> (res: i32)
    ensures
        res == scaled(px as int, dpi as int),
{
    assert(-0x8000_0000 * 0xffff_ffff <= px * dpi <= 0x7fff_ffff * 0xffff_ffff) by (nonlinear_arith)
        requires
            -0x8000_0000 <= px <= 0x7fff_ffff,
            0 <= dpi <= 0xffff_ffff,
    ;
    let product: i128 = px as i128 * dpi as i128;
    let rounded: i128 = if product >= 0 {
        (2 * product + 96) / 192
    } else {
        -((2 * -product + 96) / 192)
    };
    if rounded > i32::MAX as i128 {
        i32::MAX
    } else if rounded < i32::MIN as i128 {
        i32::MIN
    } else {
        rounded as i32
    }
}

/// At the design DPI a length is what it was designed as.
pub proof fn scaling_at_design_dpi(px: i32)
    ensures
        scaled(px as int, DESIGN_DPI as int) == px,
{
    let n = px * DESIGN_DPI;
    assert(n == 96 * px);
    if px >= 0 {
        assert((2 * n + 96) / 192 == px);
    } else {
        assert((2 * -n + 96) / 192 == -px);
    }
}

proof fn lemma_quotient_is_monotone(x: int, y: int)
    requires
        x <= y,
    ensures
        rounded_quotient(x, 96) <= rounded_quotient(y, 96),
{
    if x >= 0 {
        assert((2 * x + 96) / 192 <= (2 * y + 96) / 192);
    } else if y >= 0 {
        assert((2 * -x + 96) / 192 >= 0);
        assert((2 * y + 96) / 192 >= 0);
    } else {
        assert((2 * -x + 96) / 192 >= (2 * -y + 96) / 192);
    }
}

/// Scaling a negative length is scaling its amount, as far as an `i32` reaches.
pub proof fn scaling_is_odd(px: i32, dpi: u32)
    requires
        fits(rounded_quotient(px * dpi, 96)),
        fits(rounded_quotient(-px * dpi, 96)),
    ensures
        scaled(-px as int, dpi as int) == -scaled(px as int, dpi as int),
{
    assert((-px) * dpi == -(px * dpi)) by (nonlinear_arith);
}

/// A longer length is never scaled to a shorter one.
pub proof fn scaling_is_monotone(a: i32, b: i32, dpi: u32)
    requires
        a <= b,
    ensures
        scaled(a as int, dpi as int) <= scaled(b as int, dpi as int),
{
    assert(a * dpi <= b * dpi) by (nonlinear_arith)
        requires
            a <= b,
            0 <= dpi,
    ;
    lemma_quotient_is_monotone(a * dpi, b * dpi);
}

/// Nor does a length shrink where the DPI grows.
pub proof fn scaling_grows_with_dpi(px: i32, dpi: u32, more: u32)
    requires
        px >= 0,
        dpi <= more,
    ensures
        0 <= scaled(px as int, dpi as int) <= scaled(px as int, more as int),
{
    assert(0 <= px * dpi <= px * more) by (nonlinear_arith)
        requires
            px >= 0,
            0 <= dpi <= more,
    ;
    lemma_quotient_is_monotone(px * dpi, px * more);
}

/// How many models the widget makes room for: those shown, and at least one.
pub open spec fn models_shown(show_claude_code: bool, show_codex: bool) -> int {
    if show_claude_code && show_codex {
        2
    } else {
        1
    }
}

/// How many models the widget makes room for.
pub fn active_model_count(show_claude_code: bool, show_codex: bool) -> (count: i32)
    ensures
        count == models_shown(show_claude_code, show_codex),
{
    if show_claude_code && show_codex {
        2
    } else {
        1
    }
}

/// The width of the widget at 96 DPI.
pub open spec fn design_width(models: int, horizontal: bool) -> int {
    if horizontal && models > 1 {
        CONTENT_PAD * 2 + SERVICE_CARD_W * models + SERVICE_GAP * (models - 1)
    } else {
        CONTENT_PAD * 2 + SERVICE_CARD_W_SINGLE
    }
}

/// The height of the widget at 96 DPI.
pub open spec fn design_height(models: int, horizontal: bool) -> int {
    let rows = if horizontal {
        1
    } else {
        models
    };
    TITLEBAR_H + CONTENT_PAD * 2 + SERVICE_CARD_H * rows + SERVICE_GAP * larger(rows - 1, 0)
}

/// The width of the widget for a number of models.
pub fn total_widget_width_for(active_models: i32, layout_horizontal: bool, dpi: u32) -> (width: i32)
    requires
        fits(design_width(active_models as int, layout_horizontal)),
    ensures
        width == scaled(design_width(active_models as int, layout_horizontal), dpi as int),
{
    if layout_horizontal && active_models > 1 {
        sc(
            CONTENT_PAD * 2 + SERVICE_CARD_W * active_models + SERVICE_GAP * (active_models - 1),
            dpi,
        )
    } else {
        sc(CONTENT_PAD * 2 + SERVICE_CARD_W_SINGLE, dpi)
    }
}

/// The height of the widget for a number of models.
pub fn total_widget_height_for(active_models: i32, layout_horizontal: bool, dpi: u32) -> (height:
    i32)
    requires
        fits(design_height(active_models as int, layout_horizontal)),
        layout_horizontal || fits(SERVICE_CARD_H * active_models),
    ensures
        height == scaled(design_height(active_models as int, layout_horizontal), dpi as int),
{
    let rows: i32 = if layout_horizontal {
        1
    } else {
        active_models
    };
    let gaps: i32 = if rows - 1 > 0 {
        rows - 1
    } else {
        0
    };
    sc(TITLEBAR_H + CONTENT_PAD * 2 + SERVICE_CARD_H * rows + SERVICE_GAP * gaps, dpi)
}

/// The left edge at which the widget stands by default.
pub open spec fn default_x(width: int, screen: Screen, dpi: int) -> int {
    screen.x + larger(screen.width - width - scaled(16, dpi), 0)
}

/// The top edge at which the widget stands by default.
pub open spec fn default_y(height: int, screen: Screen, dpi: int) -> int {
    screen.y + larger(screen.height - height - scaled(64, dpi), scaled(16, dpi))
}

/// The arithmetic of the default place stays within an `i32`.
pub open spec fn default_place_fits(width: int, height: int, screen: Screen, dpi: int) -> bool {
    &&& fits(screen.width - width)
    &&& fits(screen.width - width - scaled(16, dpi))
    &&& fits(screen.height - height)
    &&& fits(screen.height - height - scaled(64, dpi))
    &&& fits(default_x(width, screen, dpi))
    &&& fits(default_y(height, screen, dpi))
}

/// Where a widget of this size stands by default: near the lower right corner
/// of the screen.
pub fn default_floating_position(width: i32, height: i32, screen: Screen, dpi: u32) -> (place: (
    i32,
    i32,
))
    requires
        default_place_fits(width as int, height as int, screen, dpi as int),
    ensures
        place.0 == default_x(width as int, screen, dpi as int),
        place.1 == default_y(height as int, screen, dpi as int),
{
    let margin: i32 = sc(16, dpi);
    let below: i32 = sc(64, dpi);
    let right: i32 = screen.width - width - margin;
    let down: i32 = screen.height - height - below;
    (
        screen.x + if right >= 0 {
            right
        } else {
            0
        },
        screen.y + if down >= margin {
            down
        } else {
            margin
        },
    )
}

/// The rightmost left edge at which a widget of this width is wholly on the
/// screen; the left edge of the screen where the widget is the wider.
pub open spec fn last_x(width: int, screen: Screen) -> int {
    screen.x + larger(screen.width - width, 0)
}

/// The lowest top edge at which a widget of this height is wholly on the
/// screen; the top edge of the screen where the widget is the higher.
pub open spec fn last_y(height: int, screen: Screen) -> int {
    screen.y + larger(screen.height - height, 0)
}

/// The arithmetic of keeping a widget on the screen stays within an `i32`.
pub open spec fn clamp_fits(width: int, height: int, screen: Screen) -> bool {
    &&& fits(larger(screen.width - width, 0))
    &&& fits(larger(screen.height - height, 0))
    &&& fits(last_x(width, screen))
    &&& fits(last_y(height, screen))
}

/// Moves a place to the nearest one at which a widget of this size is on the
/// screen.
pub fn clamp_floating_position(x: i32, y: i32, width: i32, height: i32, screen: Screen) -> (place: (
    i32,
    i32,
))
    requires
        clamp_fits(width as int, height as int, screen),
    ensures
        place.0 == held(x as int, screen.x as int, last_x(width as int, screen)),
        place.1 == held(y as int, screen.y as int, last_y(height as int, screen)),
{
    let room_x: i32 = if screen.width > width {
        screen.width - width
    } else {
        0
    };
    let room_y: i32 = if screen.height > height {
        screen.height - height
    } else {
        0
    };
    let max_x: i32 = screen.x + room_x;
    let max_y: i32 = screen.y + room_y;
    (
        if x < screen.x {
            screen.x
        } else if x > max_x {
            max_x
        } else {
            x
        },
        if y < screen.y {
            screen.y
        } else if y > max_y {
            max_y
        } else {
            y
        },
    )
}

/// A widget that the screen has room for is wholly on the screen once its place
/// has been held to it.
pub proof fn held_widget_is_on_screen(x: int, y: int, width: int, height: int, screen: Screen)
    requires
        width <= screen.width,
        height <= screen.height,
    ensures
        screen.x <= held(x, screen.x as int, last_x(width, screen)),
        held(x, screen.x as int, last_x(width, screen)) + width <= screen.x + screen.width,
        screen.y <= held(y, screen.y as int, last_y(height, screen)),
        held(y, screen.y as int, last_y(height, screen)) + height <= screen.y + screen.height,
{
}

/// Holding a place that has been held changes nothing more, and a place at
/// which the widget is already on the screen stays.
pub proof fn holding_twice_changes_nothing(n: int, low: int, high: int)
    requires
        low <= high,
    ensures
        held(held(n, low, high), low, high) == held(n, low, high),
        low <= n <= high ==> held(n, low, high) == n,
{
}

/// Where the screen has room for the widget and its margins, the default place
/// is one that holding to the screen leaves as it is.
pub proof fn default_place_is_on_screen(width: int, height: int, screen: Screen, dpi: u32)
    requires
        0 <= width,
        width + scaled(16, dpi as int) <= screen.width,
        0 <= height,
        height + scaled(64, dpi as int) + scaled(16, dpi as int) <= screen.height,
    ensures
        held(default_x(width, screen, dpi as int), screen.x as int, last_x(width, screen))
            == default_x(width, screen, dpi as int),
        held(default_y(height, screen, dpi as int), screen.y as int, last_y(height, screen))
            == default_y(height, screen, dpi as int),
{
}

/// The close button of a widget of this width.
pub open spec fn close_button(width: int, dpi: int) -> (int, int, int, int) {
    let size = scaled(CLOSE_BUTTON as int, dpi);
    let top = (scaled(TITLEBAR_H as int, dpi) - size) / 2;
    (width - scaled(8, dpi) - size, top, width - scaled(8, dpi), top + size)
}

/// A rectangle has these edges: left, top, right, bottom.
pub open spec fn has_edges(r: Rect, edges: (int, int, int, int)) -> bool {
    r.left == edges.0 && r.top == edges.1 && r.right == edges.2 && r.bottom == edges.3
}

/// Where the close button stands in a widget of this width.
pub fn close_button_rect(width: i32, dpi: u32) -> (rect: Rect)
    requires
        fits(close_button(width as int, dpi as int).0),
    ensures
        has_edges(rect, close_button(width as int, dpi as int)),
{
    let size: i32 = sc(CLOSE_BUTTON, dpi);
    let bar: i32 = sc(TITLEBAR_H, dpi);
    let inset: i32 = sc(8, dpi);
    proof {
        scaling_is_monotone(CLOSE_BUTTON, TITLEBAR_H, dpi);
        scaling_grows_with_dpi(CLOSE_BUTTON, 0, dpi);
        scaling_grows_with_dpi(8, 0, dpi);
        assert(scaled(22, 0) == 0 && scaled(8, 0) == 0);
    }
    let top: i32 = (bar - size) / 2;
    Rect { left: width - inset - size, top, right: width - inset, bottom: top + size }
}

/// Tells whether a number can be an `i32`.
fn in_range(n: i64) -> (yes: bool)
    ensures
        yes == fits(n as int),
{
    i32::MIN as i64 <= n && n <= i32::MAX as i64
}

/// Tells whether the default place of a widget of this size can be computed.
pub fn default_place_is_safe(width: i32, height: i32, screen: Screen, dpi: u32) -> (safe: bool)
    ensures
        safe == default_place_fits(width as int, height as int, screen, dpi as int),
{
    let margin: i64 = sc(16, dpi) as i64;
    let below: i64 = sc(64, dpi) as i64;
    let room_x: i64 = screen.width as i64 - width as i64;
    let room_y: i64 = screen.height as i64 - height as i64;
    let right: i64 = room_x - margin;
    let down: i64 = room_y - below;
    let x: i64 = screen.x as i64 + if right >= 0 {
        right
    } else {
        0
    };
    let y: i64 = screen.y as i64 + if down >= margin {
        down
    } else {
        margin
    };
    in_range(room_x) && in_range(right) && in_range(room_y) && in_range(down) && in_range(x)
        && in_range(y)
}

/// Tells whether a widget of this size can be held to the screen.
pub fn clamp_is_safe(width: i32, height: i32, screen: Screen) -> (safe: bool)
    ensures
        safe == clamp_fits(width as int, height as int, screen),
{
    let room_x: i64 = screen.width as i64 - width as i64;
    let room_y: i64 = screen.height as i64 - height as i64;
    let more_x: i64 = if room_x > 0 {
        room_x
    } else {
        0
    };
    let more_y: i64 = if room_y > 0 {
        room_y
    } else {
        0
    };
    in_range(more_x) && in_range(more_y) && in_range(screen.x as i64 + more_x) && in_range(
        screen.y as i64 + more_y,
    )
}

/// Tells whether a widget of this width has room for the close button.
pub fn close_button_is_safe(width: i32, dpi: u32) -> (safe: bool)
    ensures
        safe == fits(close_button(width as int, dpi as int).0),
{
    in_range(width as i64 - sc(8, dpi) as i64 - sc(CLOSE_BUTTON, dpi) as i64)
}

/// The point is in the rectangle.
pub open spec fn inside(r: Rect, x: int, y: int) -> bool {
    r.left <= x < r.right && r.top <= y < r.bottom
}

/// Tells whether a point is in a rectangle.
pub fn contains(r: Rect, x: i32, y: i32) -> (within: bool)
    ensures
        within == inside(r, x as int, y as int),
{
    x >= r.left && x < r.right && y >= r.top && y < r.bottom
}

/// A length is scaled to the nearest pixel, and of two that are as near to the
/// one farther from zero; beyond the range of an `i32`, to the end of the range.
pub proof fn lengths_go_to_the_nearest_pixel(px: i32, dpi: u32)
    ensures
        ({
            let exact = 2 * (px * dpi);
            let pixels = 192 * scaled(px as int, dpi as int);
            &&& 0 <= exact < 192 * 0x8000_0000 - 96 ==> exact - 96 < pixels <= exact + 96
            &&& -192 * 0x8000_0001 + 96 < exact < 0 ==> exact - 96 <= pixels < exact + 96
            &&& exact >= 192 * 0x8000_0000 - 96 ==> pixels == 192 * i32::MAX
            &&& exact <= -192 * 0x8000_0001 + 96 ==> pixels == 192 * i32::MIN
        }),
{
    let m = px * dpi;
    if m >= 0 {
        assert(rounded_quotient(m, 96) == (2 * m + 96) / 192);
    } else {
        assert(rounded_quotient(m, 96) == -((2 * -m + 96) / 192));
    }
}

/// At a multiple of the design DPI a length is that multiple of its design.
pub proof fn lengths_grow_with_the_display(px: int, k: int)
    requires
        -1000 <= px <= 1000,
        0 <= k <= 1_000_000,
    ensures
        scaled(px, 96 * k) == px * k,
{
    let m = px * k;
    assert(px * (96 * k) == 96 * m) by (nonlinear_arith)
        requires
            m == px * k,
    ;
    assert(-1_000_000_000 <= m <= 1_000_000_000) by (nonlinear_arith)
        requires
            m == px * k,
            -1000 <= px <= 1000,
            0 <= k <= 1_000_000,
    ;
    if m >= 0 {
        assert((2 * (96 * m) + 96) / 192 == m);
    } else {
        assert((2 * -(96 * m) + 96) / 192 == -m);
    }
}

/// A place is held to the nearest one in the range: no other is nearer.
pub proof fn held_places_are_the_nearest(n: int, low: int, high: int, other: int)
    requires
        low <= other <= high,
    ensures
        ({
            let h = held(n, low, high);
            let off = if h >= n {
                h - n
            } else {
                n - h
            };
            let other_off = if other >= n {
                other - n
            } else {
                n - other
            };
            low <= h <= high && off <= other_off
        }),
{
}

/// The default place leaves its margins to the right of the widget and below it,
/// as far as the screen has room for them; else the widget stands at the left
/// edge, and a margin below the top one.
pub proof fn default_place_keeps_its_margins(width: int, height: int, screen: Screen, dpi: u32)
    ensures
        ({
            let d = dpi as int;
            let x = default_x(width, screen, d);
            let y = default_y(height, screen, d);
            &&& width + scaled(16, d) <= screen.width ==> x + width + scaled(16, d) == screen.x
                + screen.width
            &&& width + scaled(16, d) > screen.width ==> x == screen.x
            &&& height + scaled(64, d) + scaled(16, d) <= screen.height ==> y + height + scaled(
                64,
                d,
            ) == screen.y + screen.height
            &&& height + scaled(64, d) + scaled(16, d) > screen.height ==> y == screen.y + scaled(
                16,
                d,
            )
        }),
{
}

/// The close button is a square in the title bar, as far from its upper as from
/// its lower edge, to a pixel, and as far from the right edge of the widget at
/// any width.
pub proof fn close_button_is_in_the_title_bar(width: int, dpi: u32)
    ensures
        ({
            let d = dpi as int;
            let (left, top, right, bottom) = close_button(width, d);
            let below = scaled(TITLEBAR_H as int, d) - bottom;
            &&& right - left == bottom - top
            &&& right - left == scaled(22, d)
            &&& 0 <= top <= below <= top + 1
            &&& width - right == scaled(8, d)
        }),
{
    scaling_is_monotone(CLOSE_BUTTON, TITLEBAR_H, dpi);
}

/// One model more, beside the others or below them, takes a card and a gap.
pub proof fn each_model_takes_its_room(models: int)
    ensures
        models >= 2 ==> design_width(models + 1, true) == design_width(models, true)
            + SERVICE_CARD_W + SERVICE_GAP,
        models >= 1 ==> design_height(models + 1, false) == design_height(models, false)
            + SERVICE_CARD_H + SERVICE_GAP,
        design_height(models, true) == design_height(1, false),
        design_width(models, false) == design_width(1, true),
{
}

/// A rectangle holds its upper left corner and what lies between its edges, but
/// not its right and its bottom edge.
pub proof fn rectangles_end_before_their_far_edges(r: Rect, x: int, y: int)
    ensures
        r.left < r.right && r.top < r.bottom ==> inside(r, r.left as int, r.top as int) && inside(
            r,
            r.right - 1,
            r.bottom - 1,
        ),
        x < r.left || y < r.top ==> !inside(r, x, y),
        x >= r.right || y >= r.bottom ==> !inside(r, x, y),
        r.left <= x && x < r.right && r.top <= y && y < r.bottom ==> inside(r, x, y),
{
}

/// The widget makes room for two models just where both are shown, and otherwise
/// for one.
pub proof fn there_is_room_for_a_model(show_claude_code: bool, show_codex: bool)
    ensures
        (models_shown(show_claude_code, show_codex) == 2) == (show_claude_code && show_codex),
        (models_shown(show_claude_code, show_codex) == 1) == !(show_claude_code && show_codex),
{
}

} // verus!
