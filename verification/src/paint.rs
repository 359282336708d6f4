//! The picture of the widget, as a list of things to draw in their order.
use vstd::prelude::*;

use crate::geometry::{
    active_model_count, close_button, close_button_rect, design_height, design_width, fits,
    lengths_grow_with_the_display, models_shown, rounded_quotient, sc, scaled,
    scaling_grows_with_dpi, scaling_is_monotone, Rect, CLOSE_BUTTON, CONTENT_PAD, SERVICE_CARD_H,
    SERVICE_CARD_W, SERVICE_CARD_W_SINGLE, SERVICE_GAP, TITLEBAR_H,
};
use crate::locale::{Catalog, Strings};
use crate::state::{state_height, state_width, App, AppState, AppStateView, AppView};
use crate::version::shown_version;
use crate::window::{app_title, title_text};

verus! {

/// The height of a usage bar. This and the two lengths below are in pixels at
/// 96 DPI.
pub const BAR_H: i32 = 10;

/// The radius of the corners of a usage bar.
pub const BAR_RADIUS: i32 = 5;

/// The width of the label in front of a row's value.
pub const ROW_LABEL_W: i32 = 28;

/// The colors, red first.
pub const BACKGROUND: u32 = 0x050505;

pub const TITLE_BACKGROUND: u32 = 0x111111;

pub const TITLE_BORDER: u32 = 0x2A2A2A;

pub const CARD_BACKGROUND: u32 = 0x0D0D0D;

pub const CARD_BORDER: u32 = 0x242424;

pub const TEXT_COLOR: u32 = 0xFFFFFF;

pub const MUTED_TEXT: u32 = 0xA3A3A3;

pub const BAR_TRACK: u32 = 0x262626;

pub const CLOSE_BACKGROUND: u32 = 0x1E1E1E;

pub const CLOSE_TEXT: u32 = 0xD4D4D4;

/// The colors of a usage bar when nothing, half and all of a limit is used.
pub const USAGE_NONE: u32 = 0x22C55E;

pub const USAGE_HALF: u32 = 0xF59E0B;

pub const USAGE_ALL: u32 = 0xEF4444;

/// The weights of fonts.
pub const WEIGHT_MEDIUM: i32 = 500;

pub const WEIGHT_SEMIBOLD: i32 = 600;

/// What stands on the close button.
pub const CLOSE_SIGN: &'static str = "x";

/// The title of the second model's card.
pub const CODEX_CARD: &'static str = "ChatGPT";

/// The font of all texts.
pub const FONT_NAME: &'static str = "Google Sans Flex";

/// A color.
#[derive(Clone, Copy, PartialEq, Eq, Structural, Debug)]
pub struct Color {
    pub r: u8,
    pub g: u8,
    pub b: u8,
}

/// A font: its height, negative for that of the characters, and its weight.
#[derive(Clone, Copy, PartialEq, Eq, Structural, Debug)]
pub struct Font {
    pub height: i32,
    pub weight: i32,
}

/// Where a text stands in its rectangle.
#[derive(Clone, Copy, PartialEq, Eq, Structural, Debug)]
pub enum Align {
    Left,
    Center,
    Right,
}

/// The color of a text.
#[derive(Clone, Copy, PartialEq, Eq, Structural, Debug)]
pub enum TextColor {
    Fixed(Color),
    /// That of the filled part of a bar at this percentage.
    Usage { percent: u64 },
}

/// How a text is drawn.
#[derive(Clone, Copy, PartialEq, Eq, Structural, Debug)]
pub struct TextStyle {
    pub font: Font,
    pub color: TextColor,
    pub align: Align,
    /// A text that is too long ends with an ellipsis.
    pub ellipsis: bool,
}

/// Something to draw.
#[derive(Debug)]
pub enum DrawOp {
    /// Fill a rectangle.
    Fill { rect: Rect, color: Color },
    /// Fill a rectangle whose corners are rounded.
    Round { region: Rect, diameter: i32, color: Color },
    /// Draw a line of text, in the middle of the height of a rectangle.
    Text { text: String, rect: Rect, style: TextStyle },
    /// Draw the program's icon.
    Icon { x: i32, y: i32, size: i32 },
    /// Fill the part of a bar of this width that a percentage makes up
    /// ([`bar_fill`]), within a rectangle whose corners are rounded.
    Bar { bar: Rect, width: i32, region: Rect, diameter: i32, percent: u64 },
}

/// What a [`DrawOp`] says. A rectangle is its left, top, right and bottom edge.
pub enum DrawOpView {
    Fill { rect: (int, int, int, int), color: Color },
    Round { region: (int, int, int, int), diameter: int, color: Color },
    Text { text: Seq<char>, rect: (int, int, int, int), style: TextStyle },
    Icon { x: int, y: int, size: int },
    Bar {
        bar: (int, int, int, int),
        width: int,
        region: (int, int, int, int),
        diameter: int,
        percent: u64,
    },
}

/// The edges of a rectangle.
pub open spec fn edges_of(r: Rect) -> (int, int, int, int) {
    (r.left as int, r.top as int, r.right as int, r.bottom as int)
}

impl View for DrawOp {
    type V = DrawOpView;

    open spec fn view(&self) -> DrawOpView {
        match self {
            DrawOp::Fill { rect, color } => DrawOpView::Fill {
                rect: edges_of(*rect),
                color: *color,
            },
            DrawOp::Round { region, diameter, color } => DrawOpView::Round {
                region: edges_of(*region),
                diameter: *diameter as int,
                color: *color,
            },
            DrawOp::Text { text, rect, style } => DrawOpView::Text {
                text: text@,
                rect: edges_of(*rect),
                style: *style,
            },
            DrawOp::Icon { x, y, size } => DrawOpView::Icon {
                x: *x as int,
                y: *y as int,
                size: *size as int,
            },
            DrawOp::Bar { bar, width, region, diameter, percent } => DrawOpView::Bar {
                bar: edges_of(*bar),
                width: *width as int,
                region: edges_of(*region),
                diameter: *diameter as int,
                percent: *percent,
            },
        }
    }
}

/// The views of things to draw.
pub open spec fn op_views(ops: Seq<DrawOp>) -> Seq<DrawOpView> {
    ops.map_values(|op: DrawOp| op@)
}

/// The edges can be `i32`s.
pub open spec fn edges_fit(e: (int, int, int, int)) -> bool {
    fits(e.0) && fits(e.1) && fits(e.2) && fits(e.3)
}

/// The numbers in a thing to draw can be `i32`s.
pub open spec fn op_fits(op: DrawOpView) -> bool {
    match op {
        DrawOpView::Fill { rect, .. } => edges_fit(rect),
        DrawOpView::Round { region, diameter, .. } => edges_fit(region) && fits(diameter),
        DrawOpView::Text { rect, .. } => edges_fit(rect),
        DrawOpView::Icon { x, y, size } => fits(x) && fits(y) && fits(size),
        DrawOpView::Bar { bar, width, region, diameter, .. } => edges_fit(bar) && fits(width)
            && edges_fit(region) && fits(diameter),
    }
}

/// The numbers in all things to draw can be `i32`s.
pub open spec fn all_fit(ops: Seq<DrawOpView>) -> bool {
    forall|i: int| 0 <= i < ops.len() ==> op_fits(#[trigger] ops[i])
}

/// The color with a number, red first.
pub open spec fn rgb(n: u32) -> Color {
    Color { r: (n / 0x10000) as u8, g: (n / 0x100 % 0x100) as u8, b: (n % 0x100) as u8 }
}

/// A text's color that is always the same.
pub open spec fn fixed(n: u32) -> TextColor {
    TextColor::Fixed(rgb(n))
}

/// A font whose height is designed at 96 DPI.
pub open spec fn font_at(px: int, weight: i32, dpi: u32) -> Font {
    Font { height: scaled(px, dpi as int) as i32, weight }
}

/// A rectangle with rounded corners. The region to fill holds the right and the
/// bottom edge too.
pub open spec fn rounded(rect: (int, int, int, int), color: Color, radius: int) -> DrawOpView {
    DrawOpView::Round {
        region: (rect.0, rect.1, rect.2 + 1, rect.3 + 1),
        diameter: radius * 2,
        color,
    }
}

/// The style of the texts in a row.
pub open spec fn row_style(color: TextColor, align: Align, ellipsis: bool, dpi: u32) -> TextStyle {
    TextStyle { font: font_at(-12, WEIGHT_MEDIUM, dpi), color, align, ellipsis }
}

/// The bar of a row.
pub open spec fn row_bar(x: int, y: int, width: int, dpi: u32) -> (int, int, int, int) {
    (x, y + scaled(21, dpi as int), x + width, y + scaled(21 + BAR_H, dpi as int))
}

/// The color of a row's value: where it is to match, that of the bar.
pub open spec fn value_color(percent: u64, matching: bool) -> TextColor {
    if matching {
        TextColor::Usage { percent }
    } else {
        fixed(TEXT_COLOR)
    }
}

/// A row of a card: the label, the value and the bar.
pub open spec fn row_ops(
    x: int,
    y: int,
    width: int,
    label: Seq<char>,
    percent: u64,
    value: Seq<char>,
    matching: bool,
    dpi: u32,
) -> Seq<DrawOpView> {
    let d = dpi as int;
    let middle = x + scaled(ROW_LABEL_W as int, d);
    let bar = row_bar(x, y, width, dpi);
    let radius = scaled(BAR_RADIUS as int, d);
    seq![
        DrawOpView::Text {
            text: label,
            rect: (x, y, middle, y + scaled(18, d)),
            style: row_style(fixed(MUTED_TEXT), Align::Left, false, dpi),
        },
        DrawOpView::Text {
            text: value,
            rect: (middle, y, x + width, y + scaled(18, d)),
            style: row_style(value_color(percent, matching), Align::Right, true, dpi),
        },
        rounded(bar, rgb(BAR_TRACK), radius),
        DrawOpView::Bar {
            bar,
            width,
            region: (bar.0, bar.1, bar.2 + 1, bar.3 + 1),
            diameter: radius * 2,
            percent,
        },
    ]
}

/// What a card shows of a model.
pub struct CardFacts {
    pub session_percent: u64,
    pub session_text: Seq<char>,
    pub weekly_percent: u64,
    pub weekly_text: Seq<char>,
}

/// The frame and the title of a card.
pub open spec fn card_frame(rect: (int, int, int, int), name: Seq<char>, dpi: u32) -> Seq<
    DrawOpView,
> {
    let d = dpi as int;
    let (left, top, right, bottom) = rect;
    seq![
        rounded(rect, rgb(CARD_BORDER), scaled(9, d)),
        rounded(
            (left + 1, top + 1, right - 1, bottom - 1),
            rgb(CARD_BACKGROUND),
            scaled(8, d),
        ),
        DrawOpView::Text {
            text: name,
            rect: (left + scaled(12, d), top + scaled(8, d), right - scaled(12, d), top + scaled(30, d)),
            style: TextStyle {
                font: font_at(-15, WEIGHT_SEMIBOLD, dpi),
                color: fixed(TEXT_COLOR),
                align: Align::Left,
                ellipsis: true,
            },
        },
    ]
}

/// A card: its frame, its title, and a row for each of the two limits.
pub open spec fn card_ops(
    rect: (int, int, int, int),
    name: Seq<char>,
    strings: Strings,
    card: CardFacts,
    matching: bool,
    dpi: u32,
) -> Seq<DrawOpView> {
    let d = dpi as int;
    let x = rect.0 + scaled(12, d);
    let width = rect.2 - rect.0 - scaled(24, d);
    card_frame(rect, name, dpi) + row_ops(
        x,
        rect.1 + scaled(43, d),
        width,
        strings.session_window@,
        card.session_percent,
        card.session_text,
        matching,
        dpi,
    ) + row_ops(
        x,
        rect.1 + scaled(82, d),
        width,
        strings.weekly_window@,
        card.weekly_percent,
        card.weekly_text,
        matching,
        dpi,
    )
}

/// The card of the first model.
pub open spec fn claude_card(s: AppStateView) -> CardFacts {
    CardFacts {
        session_percent: s.session_percent,
        session_text: s.session_text,
        weekly_percent: s.weekly_percent,
        weekly_text: s.weekly_text,
    }
}

/// The card of the second model.
pub open spec fn codex_card(s: AppStateView) -> CardFacts {
    CardFacts {
        session_percent: s.codex_session_percent,
        session_text: s.codex_session_text,
        weekly_percent: s.codex_weekly_percent,
        weekly_text: s.codex_weekly_text,
    }
}

/// Both models are shown.
pub open spec fn both_shown(s: AppStateView) -> bool {
    s.show_claude_code && s.show_codex
}

/// The cards are side by side.
pub open spec fn side_by_side(s: AppStateView) -> bool {
    s.layout_horizontal && both_shown(s)
}

/// The width of a card.
pub open spec fn card_width(s: AppStateView, dpi: u32) -> int {
    if side_by_side(s) {
        scaled(SERVICE_CARD_W as int, dpi as int)
    } else {
        scaled(SERVICE_CARD_W_SINGLE as int, dpi as int)
    }
}

/// A card whose upper left corner is at a place.
pub open spec fn card_at(x: int, y: int, s: AppStateView, dpi: u32) -> (int, int, int, int) {
    (x, y, x + card_width(s, dpi), y + scaled(SERVICE_CARD_H as int, dpi as int))
}

/// Where the first card stands.
pub open spec fn first_card(s: AppStateView, dpi: u32) -> (int, int, int, int) {
    card_at(
        scaled(CONTENT_PAD as int, dpi as int),
        scaled(TITLEBAR_H + CONTENT_PAD, dpi as int),
        s,
        dpi,
    )
}

/// Where the second card stands: beside the first, or below it.
pub open spec fn second_card(s: AppStateView, dpi: u32) -> (int, int, int, int) {
    let (x, y, _, _) = first_card(s, dpi);
    if side_by_side(s) {
        card_at(x + card_width(s, dpi) + scaled(SERVICE_GAP as int, dpi as int), y, s, dpi)
    } else {
        card_at(x, y + scaled(SERVICE_CARD_H + SERVICE_GAP, dpi as int), s, dpi)
    }
}

/// Where the second model's card stands: in the first place where the first
/// model is not shown.
pub open spec fn codex_place(s: AppStateView, dpi: u32) -> (int, int, int, int) {
    if s.show_claude_code {
        second_card(s, dpi)
    } else {
        first_card(s, dpi)
    }
}

/// The program's icon in the title bar.
pub open spec fn icon_op(dpi: u32) -> DrawOpView {
    let d = dpi as int;
    DrawOpView::Icon {
        x: scaled(10, d),
        y: (scaled(TITLEBAR_H as int, d) - scaled(18, d)) / 2,
        size: scaled(18, d),
    }
}

/// The background and the title bar.
pub open spec fn frame_ops(width: int, height: int, title: Seq<char>, dpi: u32) -> Seq<DrawOpView> {
    let d = dpi as int;
    let bar = scaled(TITLEBAR_H as int, d);
    let close = close_button(width, d);
    seq![
        DrawOpView::Fill { rect: (0, 0, width, height), color: rgb(BACKGROUND) },
        DrawOpView::Fill { rect: (0, 0, width, bar), color: rgb(TITLE_BACKGROUND) },
        DrawOpView::Fill { rect: (0, bar, width, bar + 1), color: rgb(TITLE_BORDER) },
        icon_op(dpi),
        DrawOpView::Text {
            text: title,
            rect: (scaled(36, d), 0, width - scaled(42, d), bar),
            style: TextStyle {
                font: font_at(-14, WEIGHT_SEMIBOLD, dpi),
                color: fixed(TEXT_COLOR),
                align: Align::Left,
                ellipsis: true,
            },
        },
        rounded(close, rgb(CLOSE_BACKGROUND), scaled(6, d)),
        DrawOpView::Text {
            text: CLOSE_SIGN@,
            rect: close,
            style: TextStyle {
                font: font_at(-15, WEIGHT_MEDIUM, dpi),
                color: fixed(CLOSE_TEXT),
                align: Align::Center,
                ellipsis: false,
            },
        },
    ]
}

/// The texts in the language of a state.
pub open spec fn state_strings(s: AppStateView, catalog: Catalog) -> Strings {
    catalog.entry(s.language).strings
}

/// The card of the first model, if it is shown.
pub open spec fn claude_ops(s: AppStateView, catalog: Catalog, dpi: u32) -> Seq<DrawOpView> {
    if s.show_claude_code {
        card_ops(
            first_card(s, dpi),
            catalog.claude_code_card@,
            state_strings(s, catalog),
            claude_card(s),
            both_shown(s),
            dpi,
        )
    } else {
        seq![]
    }
}

/// The card of the second model, if it is shown.
pub open spec fn codex_ops(s: AppStateView, catalog: Catalog, dpi: u32) -> Seq<DrawOpView> {
    if s.show_codex {
        card_ops(
            codex_place(s, dpi),
            CODEX_CARD@,
            state_strings(s, catalog),
            codex_card(s),
            both_shown(s),
            dpi,
        )
    } else {
        seq![]
    }
}

/// The whole picture.
pub open spec fn content_ops(
    s: AppStateView,
    width: int,
    height: int,
    catalog: Catalog,
    version: Seq<char>,
    dpi: u32,
) -> Seq<DrawOpView> {
    frame_ops(width, height, title_text(state_strings(s, catalog).window_title@, version), dpi) + claude_ops(
        s,
        catalog,
        dpi,
    ) + codex_ops(s, catalog, dpi)
}

/// What is drawn in a window whose inside has this size: nothing before there
/// is a state, or where there is no room.
pub open spec fn painted(
    a: AppView,
    width: int,
    height: int,
    catalog: Catalog,
    version: Seq<char>,
) -> Seq<DrawOpView> {
    match a.state {
        Some(s) if width > 0 && height > 0 => content_ops(
            s,
            width,
            height,
            catalog,
            version,
            a.dpi,
        ),
        _ => seq![],
    }
}

/// The part of a bar to fill, of this width.
pub open spec fn filled(bar: Rect, fill_w: i32) -> Option<Rect> {
    if fill_w > 0 {
        Some(
            Rect {
                right: if bar.left + fill_w < bar.right {
                    (bar.left + fill_w) as i32
                } else {
                    bar.right
                },
                ..bar
            },
        )
    } else {
        None
    }
}

/// Makes the color with a number, red first.
pub fn color(n: u32) -> (c: Color)
    requires
        n <= 0xFFFFFF,
    ensures
        c == rgb(n),
{
    Color { r: (n / 0x10000) as u8, g: (n / 0x100 % 0x100) as u8, b: (n % 0x100) as u8 }
}

impl Color {
    /// The color as the Windows API takes it: red in the lowest byte.
    pub fn to_colorref(&self) -> (n: u32)
        ensures
            n == self.r + 0x100 * self.g + 0x10000 * self.b,
    {
        self.r as u32 + 0x100 * self.g as u32 + 0x10000 * self.b as u32
    }
}

/// The part of a bar to fill, of this width: none where the width is not
/// positive, and nothing beyond the bar.
pub fn bar_fill(bar: Rect, fill_w: i32) -> (fill: Option<Rect>)
    ensures
        fill == filled(bar, fill_w),
{
    if fill_w > 0 {
        let right: i64 = bar.left as i64 + fill_w as i64;
        let end: i32 = if right < bar.right as i64 {
            right as i32
        } else {
            bar.right
        };
        Some(Rect { left: bar.left, top: bar.top, right: end, bottom: bar.bottom })
    } else {
        None
    }
}

/// A number as an `i32`.
fn px(n: i64) -> (res: i32)
    requires
        fits(n as int),
    ensures
        res == n,
{
    n as i32
}

/// A length designed at 96 DPI.
fn wide_sc(n: i32, dpi: u32) -> (res: i64)
    ensures
        res == scaled(n as int, dpi as int),
        fits(res as int),
{
    sc(n, dpi) as i64
}

fn rect(left: i64, top: i64, right: i64, bottom: i64) -> (r: Rect)
    requires
        edges_fit((left as int, top as int, right as int, bottom as int)),
    ensures
        edges_of(r) == (left as int, top as int, right as int, bottom as int),
{
    Rect { left: px(left), top: px(top), right: px(right), bottom: px(bottom) }
}

fn create_app_font(height: i32, weight: i32, dpi: u32) -> (font: Font)
    ensures
        font == font_at(height as int, weight, dpi),
{
    Font { height: sc(height, dpi), weight }
}

fn draw_text(text: &str, rect: Rect, style: TextStyle) -> (op: DrawOp)
    ensures
        op@ == (DrawOpView::Text { text: text@, rect: edges_of(rect), style }),
{
    DrawOp::Text { text: text.to_string(), rect, style }
}

fn draw_rounded_rect(
    left: i64,
    top: i64,
    right: i64,
    bottom: i64,
    color: Color,
    radius: i32,
) -> (op: DrawOp)
    requires
        op_fits(
            rounded(
                (left as int, top as int, right as int, bottom as int),
                color,
                radius as int,
            ),
        ),
    ensures
        op@ == rounded(
            (left as int, top as int, right as int, bottom as int),
            color,
            radius as int,
        ),
{
    DrawOp::Round { region: rect(left, top, right + 1, bottom + 1), diameter: radius * 2, color }
}

fn draw_bottom_border(y: i32, width: i32, color: Color) -> (op: DrawOp)
    requires
        fits(y + 1),
    ensures
        op@ == (DrawOpView::Fill { rect: (0, y as int, width as int, y + 1), color }),
{
    DrawOp::Fill { rect: Rect { left: 0, top: y, right: width, bottom: y + 1 }, color }
}

fn draw_titlebar_icon(dpi: u32) -> (op: DrawOp)
    ensures
        op@ == icon_op(dpi),
{
    let size: i32 = sc(18, dpi);
    let bar: i32 = sc(TITLEBAR_H, dpi);
    proof {
        scaling_is_monotone(18, TITLEBAR_H, dpi);
        scaling_grows_with_dpi(18, 0, dpi);
    }
    DrawOp::Icon { x: sc(10, dpi), y: (bar - size) / 2, size }
}

/// A row of a card. The value has the color of the bar where it is to match.
pub fn draw_usage_row(
    x: i32,
    y: i32,
    width: i32,
    label: &str,
    percent: u64,
    value: &str,
    matching: bool,
    dpi: u32,
) -> (ops: Vec<DrawOp>)
    requires
        all_fit(row_ops(x as int, y as int, width as int, label@, percent, value@, matching, dpi)),
    ensures
        op_views(ops@) == row_ops(x as int, y as int, width as int, label@, percent, value@, matching, dpi),
{
    let ghost wanted = row_ops(x as int, y as int, width as int, label@, percent, value@, matching, dpi);
    assert(op_fits(wanted[0]) && op_fits(wanted[1]) && op_fits(wanted[2]) && op_fits(wanted[3]));
    let left: i64 = x as i64;
    let top: i64 = y as i64;
    let middle: i64 = left + wide_sc(ROW_LABEL_W, dpi);
    let right: i64 = left + width as i64;
    let text_bottom: i64 = top + wide_sc(18, dpi);
    let bar_top: i64 = top + wide_sc(21, dpi);
    let bar_bottom: i64 = top + wide_sc(21 + BAR_H, dpi);
    let radius: i32 = sc(BAR_RADIUS, dpi);
    let font: Font = create_app_font(-12, WEIGHT_MEDIUM, dpi);
    let muted: TextStyle = TextStyle {
        font,
        color: TextColor::Fixed(color(MUTED_TEXT)),
        align: Align::Left,
        ellipsis: false,
    };
    let value_style: TextStyle = TextStyle {
        font,
        color: if matching {
            TextColor::Usage { percent }
        } else {
            TextColor::Fixed(color(TEXT_COLOR))
        },
        align: Align::Right,
        ellipsis: true,
    };
    vec![
        draw_text(label, rect(left, top, middle, text_bottom), muted),
        draw_text(value, rect(middle, top, right, text_bottom), value_style),
        draw_rounded_rect(left, bar_top, right, bar_bottom, color(BAR_TRACK), radius),
        DrawOp::Bar {
            bar: rect(left, bar_top, right, bar_bottom),
            width,
            region: rect(left, bar_top, right + 1, bar_bottom + 1),
            diameter: radius * 2,
            percent,
        },
    ]
}

proof fn lemma_views_of_joined(a: Seq<DrawOp>, b: Seq<DrawOp>)
    ensures
        op_views(a + b) == op_views(a) + op_views(b),
{
}

proof fn lemma_parts_fit(a: Seq<DrawOpView>, b: Seq<DrawOpView>)
    ensures
        all_fit(a + b) == (all_fit(a) && all_fit(b)),
{
    if all_fit(a + b) {
        assert forall|i: int| 0 <= i < a.len() implies op_fits(#[trigger] a[i]) by {
            assert((a + b)[i] == a[i]);
        }
        assert forall|i: int| 0 <= i < b.len() implies op_fits(#[trigger] b[i]) by {
            assert((a + b)[a.len() + i] == b[i]);
        }
    }
}

/// Adds things to draw behind others.
fn join(ops: &mut Vec<DrawOp>, mut more: Vec<DrawOp>)
    ensures
        op_views(final(ops)@) == op_views(old(ops)@) + op_views(more@),
{
    proof {
        lemma_views_of_joined(ops@, more@);
    }
    ops.append(&mut more);
}

/// The frame and the title of a card.
fn draw_card_frame(card: Rect, name: &str, dpi: u32) -> (ops: Vec<DrawOp>)
    requires
        all_fit(card_frame(edges_of(card), name@, dpi)),
    ensures
        op_views(ops@) == card_frame(edges_of(card), name@, dpi),
{
    let ghost wanted = card_frame(edges_of(card), name@, dpi);
    assert(op_fits(wanted[0]) && op_fits(wanted[1]) && op_fits(wanted[2]));
    let left: i64 = card.left as i64;
    let top: i64 = card.top as i64;
    let right: i64 = card.right as i64;
    let bottom: i64 = card.bottom as i64;
    let inset: i64 = wide_sc(12, dpi);
    let title: Rect = rect(
        left + inset,
        top + wide_sc(8, dpi),
        right - inset,
        top + wide_sc(30, dpi),
    );
    let style: TextStyle = TextStyle {
        font: create_app_font(-15, WEIGHT_SEMIBOLD, dpi),
        color: TextColor::Fixed(color(TEXT_COLOR)),
        align: Align::Left,
        ellipsis: true,
    };
    vec![
        draw_rounded_rect(left, top, right, bottom, color(CARD_BORDER), sc(9, dpi)),
        draw_rounded_rect(
            left + 1,
            top + 1,
            right - 1,
            bottom - 1,
            color(CARD_BACKGROUND),
            sc(8, dpi),
        ),
        draw_text(name, title, style),
    ]
}

/// A card. The values have the colors of their bars where they are to match.
pub fn draw_service_card(
    card: Rect,
    name: &str,
    strings: &Strings,
    session_percent: u64,
    session_text: &str,
    weekly_percent: u64,
    weekly_text: &str,
    matching: bool,
    dpi: u32,
) -> (ops: Vec<DrawOp>)
    requires
        all_fit(
            card_ops(
                edges_of(card),
                name@,
                *strings,
                (CardFacts {
                    session_percent,
                    session_text: session_text@,
                    weekly_percent,
                    weekly_text: weekly_text@,
                }),
                matching,
                dpi,
            ),
        ),
    ensures
        op_views(ops@) == card_ops(
            edges_of(card),
            name@,
            *strings,
            (CardFacts {
                session_percent,
                session_text: session_text@,
                weekly_percent,
                weekly_text: weekly_text@,
            }),
            matching,
            dpi,
        ),
{
    let left: i64 = card.left as i64;
    let top: i64 = card.top as i64;
    let x: i64 = left + wide_sc(12, dpi);
    let width: i64 = card.right as i64 - left - wide_sc(24, dpi);
    let session_y: i64 = top + wide_sc(43, dpi);
    let weekly_y: i64 = top + wide_sc(82, dpi);
    let ghost frame = card_frame(edges_of(card), name@, dpi);
    let ghost session = row_ops(
        x as int,
        session_y as int,
        width as int,
        strings.session_window@,
        session_percent,
        session_text@,
        matching,
        dpi,
    );
    let ghost weekly = row_ops(
        x as int,
        weekly_y as int,
        width as int,
        strings.weekly_window@,
        weekly_percent,
        weekly_text@,
        matching,
        dpi,
    );
    proof {
        lemma_parts_fit(frame + session, weekly);
        lemma_parts_fit(frame, session);
        assert(op_fits(session[0]) && op_fits(session[3]) && op_fits(weekly[0]));
    }
    let mut ops: Vec<DrawOp> = draw_card_frame(card, name, dpi);
    join(
        &mut ops,
        draw_usage_row(
            px(x),
            px(session_y),
            px(width),
            strings.session_window,
            session_percent,
            session_text,
            matching,
            dpi,
        ),
    );
    join(
        &mut ops,
        draw_usage_row(
            px(x),
            px(weekly_y),
            px(width),
            strings.weekly_window,
            weekly_percent,
            weekly_text,
            matching,
            dpi,
        ),
    );
    ops
}

/// The background and the title bar.
fn draw_frame(width: i32, height: i32, title: &str, dpi: u32) -> (ops: Vec<DrawOp>)
    requires
        all_fit(frame_ops(width as int, height as int, title@, dpi)),
    ensures
        op_views(ops@) == frame_ops(width as int, height as int, title@, dpi),
{
    let ghost wanted = frame_ops(width as int, height as int, title@, dpi);
    assert(op_fits(wanted[2]) && op_fits(wanted[4]) && op_fits(wanted[5]) && op_fits(wanted[6]));
    let bar: i32 = sc(TITLEBAR_H, dpi);
    let close: Rect = close_button_rect(width, dpi);
    let title_rect: Rect = rect(
        wide_sc(36, dpi),
        0,
        width as i64 - wide_sc(42, dpi),
        bar as i64,
    );
    let title_style: TextStyle = TextStyle {
        font: create_app_font(-14, WEIGHT_SEMIBOLD, dpi),
        color: TextColor::Fixed(color(TEXT_COLOR)),
        align: Align::Left,
        ellipsis: true,
    };
    let close_style: TextStyle = TextStyle {
        font: create_app_font(-15, WEIGHT_MEDIUM, dpi),
        color: TextColor::Fixed(color(CLOSE_TEXT)),
        align: Align::Center,
        ellipsis: false,
    };
    vec![
        DrawOp::Fill {
            rect: Rect { left: 0, top: 0, right: width, bottom: height },
            color: color(BACKGROUND),
        },
        DrawOp::Fill {
            rect: Rect { left: 0, top: 0, right: width, bottom: bar },
            color: color(TITLE_BACKGROUND),
        },
        draw_bottom_border(bar, width, color(TITLE_BORDER)),
        draw_titlebar_icon(dpi),
        draw_text(title, title_rect, title_style),
        draw_rounded_rect(
            close.left as i64,
            close.top as i64,
            close.right as i64,
            close.bottom as i64,
            color(CLOSE_BACKGROUND),
            sc(6, dpi),
        ),
        draw_text(CLOSE_SIGN, close, close_style),
    ]
}

impl AppState {
    /// The width of a card.
    fn card_width(&self, dpi: u32) -> (width: i64)
        ensures
            width == card_width(self@, dpi),
            fits(width as int),
    {
        if self.layout_horizontal && active_model_count(self.show_claude_code, self.show_codex) > 1 {
            wide_sc(SERVICE_CARD_W, dpi)
        } else {
            wide_sc(SERVICE_CARD_W_SINGLE, dpi)
        }
    }

    fn draw_claude(&self, catalog: &Catalog, dpi: u32) -> (ops: Vec<DrawOp>)
        requires
            all_fit(claude_ops(self@, *catalog, dpi)),
        ensures
            op_views(ops@) == claude_ops(self@, *catalog, dpi),
    {
        if !self.show_claude_code {
            let none: Vec<DrawOp> = vec![];
            assert(op_views(none@) =~= seq![]);
            return none;
        }
        let ghost wanted = claude_ops(self@, *catalog, dpi);
        let x: i64 = wide_sc(CONTENT_PAD, dpi);
        let y: i64 = wide_sc(TITLEBAR_H + CONTENT_PAD, dpi);
        let right: i64 = x + self.card_width(dpi);
        let bottom: i64 = y + wide_sc(SERVICE_CARD_H, dpi);
        assert(op_fits(wanted[0]));
        draw_service_card(
            rect(x, y, right, bottom),
            catalog.claude_code_card,
            &catalog.strings(self.language),
            self.session_percent,
            self.session_text.as_str(),
            self.weekly_percent,
            self.weekly_text.as_str(),
            self.show_claude_code && self.show_codex,
            dpi,
        )
    }

    fn draw_codex(&self, catalog: &Catalog, dpi: u32) -> (ops: Vec<DrawOp>)
        requires
            all_fit(codex_ops(self@, *catalog, dpi)),
        ensures
            op_views(ops@) == codex_ops(self@, *catalog, dpi),
    {
        if !self.show_codex {
            let none: Vec<DrawOp> = vec![];
            assert(op_views(none@) =~= seq![]);
            return none;
        }
        let ghost wanted = codex_ops(self@, *catalog, dpi);
        let card_w: i64 = self.card_width(dpi);
        let mut x: i64 = wide_sc(CONTENT_PAD, dpi);
        let mut y: i64 = wide_sc(TITLEBAR_H + CONTENT_PAD, dpi);
        if self.show_claude_code {
            if self.layout_horizontal {
                x = x + card_w + wide_sc(SERVICE_GAP, dpi);
            } else {
                y = y + wide_sc(SERVICE_CARD_H + SERVICE_GAP, dpi);
            }
        }
        let right: i64 = x + card_w;
        let bottom: i64 = y + wide_sc(SERVICE_CARD_H, dpi);
        assert(op_fits(wanted[0]));
        draw_service_card(
            rect(x, y, right, bottom),
            CODEX_CARD,
            &catalog.strings(self.language),
            self.codex_session_percent,
            self.codex_session_text.as_str(),
            self.codex_weekly_percent,
            self.codex_weekly_text.as_str(),
            self.show_claude_code && self.show_codex,
            dpi,
        )
    }

    /// The whole picture.
    pub fn paint_content(
        &self,
        width: i32,
        height: i32,
        catalog: &Catalog,
        version: &str,
        dpi: u32,
    ) -> (ops: Vec<DrawOp>)
        requires
            all_fit(content_ops(self@, width as int, height as int, *catalog, version@, dpi)),
        ensures
            op_views(ops@) == content_ops(
                self@,
                width as int,
                height as int,
                *catalog,
                version@,
                dpi,
            ),
    {
        let title: String = app_title(catalog.strings(self.language).window_title, version);
        let ghost frame = frame_ops(width as int, height as int, title@, dpi);
        proof {
            lemma_parts_fit(
                frame + claude_ops(self@, *catalog, dpi),
                codex_ops(self@, *catalog, dpi),
            );
            lemma_parts_fit(frame, claude_ops(self@, *catalog, dpi));
        }
        let mut ops: Vec<DrawOp> = draw_frame(width, height, title.as_str(), dpi);
        join(&mut ops, self.draw_claude(catalog, dpi));
        join(&mut ops, self.draw_codex(catalog, dpi));
        ops
    }
}

impl App {
    /// What to draw in a window whose inside has this size.
    pub fn paint(&self, width: i32, height: i32, catalog: &Catalog, version: &str) -> (ops: Vec<
        DrawOp,
    >)
        requires
            all_fit(painted(self@, width as int, height as int, *catalog, version@)),
        ensures
            op_views(ops@) == painted(self@, width as int, height as int, *catalog, version@),
    {
        match &self.state {
            Some(s) => {
                if width <= 0 || height <= 0 {
                    let none: Vec<DrawOp> = vec![];
                    assert(op_views(none@) =~= seq![]);
                    return none;
                }
                s.paint_content(width, height, catalog, version, self.dpi)
            },
            None => {
                let none: Vec<DrawOp> = vec![];
                assert(op_views(none@) =~= seq![]);
                none
            },
        }
    }
}

/// The highest DPI for which every picture is known to be drawable.
pub const DRAWABLE_DPI: u32 = 96_000_000;

proof fn lemma_small_length(n: i32, dpi: u32)
    requires
        0 <= n <= 500,
        dpi <= DRAWABLE_DPI,
    ensures
        0 <= scaled(n as int, dpi as int) <= 1_000_000 * n,
{
    scaling_grows_with_dpi(n, dpi, DRAWABLE_DPI);
    assert(rounded_quotient(n * DRAWABLE_DPI, 96) == 1_000_000 * n);
}

proof fn lemma_row_fits(
    x: int,
    y: int,
    width: int,
    label: Seq<char>,
    percent: u64,
    value: Seq<char>,
    matching: bool,
    dpi: u32,
)
    requires
        dpi <= DRAWABLE_DPI,
        0 <= x <= 1_000_000_000,
        0 <= y <= 1_500_000_000,
        -500_000_000 <= width <= 500_000_000,
    ensures
        all_fit(row_ops(x, y, width, label, percent, value, matching, dpi)),
{
    lemma_small_length(ROW_LABEL_W, dpi);
    lemma_small_length(18, dpi);
    lemma_small_length(21, dpi);
    lemma_small_length(31, dpi);
    lemma_small_length(BAR_RADIUS, dpi);
}

proof fn lemma_card_fits(
    card: (int, int, int, int),
    name: Seq<char>,
    strings: Strings,
    facts: CardFacts,
    matching: bool,
    dpi: u32,
)
    requires
        dpi <= DRAWABLE_DPI,
        0 <= card.0 <= 500_000_000,
        0 <= card.1 <= 1_000_000_000,
        0 <= card.2 - card.0 <= 500_000_000,
        0 <= card.3 - card.1 <= 500_000_000,
    ensures
        all_fit(card_ops(card, name, strings, facts, matching, dpi)),
{
    let d = dpi as int;
    lemma_small_length(8, dpi);
    lemma_small_length(9, dpi);
    lemma_small_length(12, dpi);
    lemma_small_length(24, dpi);
    lemma_small_length(30, dpi);
    lemma_small_length(43, dpi);
    lemma_small_length(82, dpi);
    let frame = card_frame(card, name, dpi);
    assert(all_fit(frame));
    let x = card.0 + scaled(12, d);
    let width = card.2 - card.0 - scaled(24, d);
    let session_y = card.1 + scaled(43, d);
    let weekly_y = card.1 + scaled(82, d);
    lemma_row_fits(
        x,
        session_y,
        width,
        strings.session_window@,
        facts.session_percent,
        facts.session_text,
        matching,
        dpi,
    );
    lemma_row_fits(
        x,
        weekly_y,
        width,
        strings.weekly_window@,
        facts.weekly_percent,
        facts.weekly_text,
        matching,
        dpi,
    );
    let session = row_ops(
        x,
        session_y,
        width,
        strings.session_window@,
        facts.session_percent,
        facts.session_text,
        matching,
        dpi,
    );
    let weekly = row_ops(
        x,
        weekly_y,
        width,
        strings.weekly_window@,
        facts.weekly_percent,
        facts.weekly_text,
        matching,
        dpi,
    );
    lemma_parts_fit(frame, session);
    lemma_parts_fit(frame + session, weekly);
}

/// On a display of up to a million times the design density, every picture can
/// be drawn. Only a window as wide as an `i32` reaches can have no room for the
/// edge of the close button.
pub proof fn pictures_fit(
    a: AppView,
    width: i32,
    height: i32,
    catalog: Catalog,
    version: Seq<char>,
)
    requires
        a.dpi <= DRAWABLE_DPI,
        width < i32::MAX,
    ensures
        all_fit(painted(a, width as int, height as int, catalog, version)),
{
    if a.state is Some && width > 0 && height > 0 {
        let s = a.state->0;
        let dpi = a.dpi;
        let strings = state_strings(s, catalog);
        lemma_small_length(6, dpi);
        lemma_small_length(8, dpi);
        lemma_small_length(10, dpi);
        lemma_small_length(CONTENT_PAD, dpi);
        lemma_small_length(SERVICE_GAP, dpi);
        lemma_small_length(18, dpi);
        lemma_small_length(CLOSE_BUTTON, dpi);
        lemma_small_length(TITLEBAR_H, dpi);
        lemma_small_length(36, dpi);
        lemma_small_length(42, dpi);
        lemma_small_length(48, dpi);
        lemma_small_length(SERVICE_CARD_H, dpi);
        lemma_small_length(138, dpi);
        lemma_small_length(SERVICE_CARD_W, dpi);
        lemma_small_length(SERVICE_CARD_W_SINGLE, dpi);
        let frame = frame_ops(
            width as int,
            height as int,
            title_text(strings.window_title@, version),
            dpi,
        );
        scaling_is_monotone(CLOSE_BUTTON, TITLEBAR_H, dpi);
        scaling_is_monotone(18, TITLEBAR_H, dpi);
        assert(all_fit(frame));
        lemma_card_fits(
            first_card(s, dpi),
            catalog.claude_code_card@,
            strings,
            claude_card(s),
            both_shown(s),
            dpi,
        );
        lemma_card_fits(
            codex_place(s, dpi),
            CODEX_CARD@,
            strings,
            codex_card(s),
            both_shown(s),
            dpi,
        );
        lemma_parts_fit(frame, claude_ops(s, catalog, dpi));
        lemma_parts_fit(
            frame + claude_ops(s, catalog, dpi),
            codex_ops(s, catalog, dpi),
        );
    }
}

/// A length is scaled to the nearest pixel.
proof fn lemma_nearest_pixel(n: int, dpi: u32)
    requires
        n >= 0,
        fits(rounded_quotient(n * dpi, 96)),
    ensures
        2 * (n * dpi) - 96 < 192 * scaled(n, dpi as int) <= 2 * (n * dpi) + 96,
{
    let m = n * dpi;
    assert(m >= 0) by (nonlinear_arith)
        requires
            m == n * dpi,
            n >= 0,
            dpi >= 0,
    ;
    assert(rounded_quotient(m, 96) == (2 * m + 96) / 192);
}

proof fn lemma_shorter_is_nearest(n: int, m: int, dpi: u32)
    requires
        0 <= n <= m,
        fits(rounded_quotient(m * dpi, 96)),
    ensures
        2 * (n * dpi) - 96 < 192 * scaled(n, dpi as int) <= 2 * (n * dpi) + 96,
{
    assert(0 <= n * dpi <= m * dpi) by (nonlinear_arith)
        requires
            0 <= n <= m,
            dpi >= 0,
    ;
    assert(rounded_quotient(n * dpi, 96) == (2 * (n * dpi) + 96) / 192);
    assert(rounded_quotient(m * dpi, 96) == (2 * (m * dpi) + 96) / 192);
    lemma_nearest_pixel(n, dpi);
}

/// One rectangle lies within another.
pub open spec fn within(inner: (int, int, int, int), outer: (int, int, int, int)) -> bool {
    &&& outer.0 <= inner.0 <= inner.2 <= outer.2
    &&& outer.1 <= inner.1 <= inner.3 <= outer.3
}

/// The part of the widget below the title bar.
pub open spec fn content_area(s: AppStateView, dpi: u32) -> (int, int, int, int) {
    (
        0,
        scaled(TITLEBAR_H as int, dpi as int),
        state_width(s, dpi),
        state_height(s, dpi),
    )
}

/// The size of the widget is no number beyond an `i32`.
pub open spec fn size_fits(s: AppStateView, dpi: u32) -> bool {
    let models = models_shown(s.show_claude_code, s.show_codex);
    &&& fits(rounded_quotient(design_width(models, s.layout_horizontal) * dpi, 96))
    &&& fits(rounded_quotient(design_height(models, s.layout_horizontal) * dpi, 96))
}

/// The entry `i` of a picture is a text in the color that fills the bar which is
/// the entry `i + 2`.
pub open spec fn matches_its_bar(ops: Seq<DrawOpView>, i: int) -> bool {
    &&& ops[i] matches DrawOpView::Text { style, .. }
    &&& ops[i + 2] matches DrawOpView::Bar { percent, .. }
    &&& style.color == (TextColor::Usage { percent })
}

/// Where both models are shown, each usage text has the color that fills its own
/// bar; where one is, each has the color of all texts.
pub proof fn values_match_where_both_are_shown(
    s: AppStateView,
    width: int,
    height: int,
    catalog: Catalog,
    version: Seq<char>,
    dpi: u32,
)
    ensures
        ({
            let ops = content_ops(s, width, height, catalog, version, dpi);
            let plain = row_style(fixed(TEXT_COLOR), Align::Right, true, dpi);
            &&& both_shown(s) ==> ops.len() == 29 && matches_its_bar(ops, 11) && matches_its_bar(
                ops,
                15,
            ) && matches_its_bar(ops, 22) && matches_its_bar(ops, 26)
            &&& s.show_claude_code != s.show_codex ==> ops.len() == 18 && (ops[11] matches
                DrawOpView::Text { style, .. } && style == plain) && (ops[15] matches
                DrawOpView::Text { style, .. } && style == plain)
        }),
{
}

/// The filled part of a bar lies within the bar.
pub proof fn fill_stays_in_the_bar(bar: Rect, fill_w: i32)
    requires
        bar.left <= bar.right,
        bar.top <= bar.bottom,
    ensures
        filled(bar, fill_w) matches Some(fill) ==> within(edges_of(fill), edges_of(bar)),
{
}

proof fn lemma_small_dpi_rows(dpi: u32)
    requires
        dpi <= 6,
    ensures
        ({
            let d = dpi as int;
            &&& scaled(43, d) + scaled(31, d) <= scaled(82, d)
            &&& scaled(82, d) + scaled(31, d) <= scaled(126, d)
        }),
{
    let d = dpi as int;
    assert(scaled(31, d) == (62 * d + 96) / 192);
    assert(scaled(43, d) == (86 * d + 96) / 192);
    assert(scaled(82, d) == (164 * d + 96) / 192);
    assert(scaled(126, d) == (252 * d + 96) / 192);
    if d == 0 {
    } else if d == 1 {
    } else if d == 2 {
    } else if d == 3 {
    } else if d == 4 {
    } else if d == 5 {
    } else {
        assert(d == 6);
    }
}

/// The bars of a card lie within it, the first wholly above the second row, at
/// any DPI at which the size of the widget is an `i32`.
pub proof fn bars_are_in_their_card(x: int, y: int, s: AppStateView, dpi: u32)
    requires
        size_fits(s, dpi),
    ensures
        ({
            let d = dpi as int;
            let card = card_at(x, y, s, dpi);
            let left = card.0 + scaled(12, d);
            let width = card.2 - card.0 - scaled(24, d);
            let session = row_bar(left, card.1 + scaled(43, d), width, dpi);
            let weekly = row_bar(left, card.1 + scaled(82, d), width, dpi);
            &&& within(session, card)
            &&& within(weekly, card)
            &&& session.3 <= card.1 + scaled(82, d)
        }),
{
    let models = models_shown(s.show_claude_code, s.show_codex);
    let h = design_height(models, s.layout_horizontal);
    scaling_grows_with_dpi(12, 0, dpi);
    scaling_grows_with_dpi(43, 0, dpi);
    scaling_grows_with_dpi(82, 0, dpi);
    scaling_grows_with_dpi(21, 0, dpi);
    scaling_is_monotone(12, 24, dpi);
    scaling_is_monotone(24, SERVICE_CARD_W, dpi);
    scaling_is_monotone(24, SERVICE_CARD_W_SINGLE, dpi);
    scaling_is_monotone(21, 31, dpi);
    scaling_is_monotone(82, 126, dpi);
    lemma_shorter_is_nearest(31, h, dpi);
    lemma_shorter_is_nearest(43, h, dpi);
    lemma_shorter_is_nearest(82, h, dpi);
    lemma_shorter_is_nearest(126, h, dpi);
    if dpi <= 6 {
        lemma_small_dpi_rows(dpi);
    }
}

/// The lengths of a widget hold those of its cards even where a pixel is much
/// of either.
proof fn lemma_small_dpi(dpi: u32)
    requires
        dpi <= 10,
    ensures
        ({
            let d = dpi as int;
            &&& scaled(14, d) + scaled(274, d) <= scaled(302, d)
            &&& scaled(14, d) + scaled(214, d) + scaled(12, d) + scaled(214, d) <= scaled(468, d)
            &&& scaled(48, d) + scaled(126, d) <= scaled(188, d)
            &&& scaled(48, d) + scaled(138, d) + scaled(126, d) <= scaled(326, d)
        }),
{
    let d = dpi as int;
    if d == 0 {
    } else if d == 1 {
    } else if d == 2 {
    } else if d == 3 {
    } else if d == 4 {
    } else if d == 5 {
    } else if d == 6 {
    } else if d == 7 {
    } else if d == 8 {
    } else if d == 9 {
    } else {
        assert(d == 10);
    }
}

/// Every card that is drawn lies within the widget, below the title bar, at any
/// DPI at which the size of the widget is an `i32`.
pub proof fn cards_are_in_the_widget(s: AppStateView, dpi: u32)
    requires
        size_fits(s, dpi),
    ensures
        s.show_claude_code ==> within(first_card(s, dpi), content_area(s, dpi)),
        s.show_codex ==> within(codex_place(s, dpi), content_area(s, dpi)),
{
    let models = models_shown(s.show_claude_code, s.show_codex);
    let w = design_width(models, s.layout_horizontal);
    let h = design_height(models, s.layout_horizontal);
    lemma_nearest_pixel(w, dpi);
    lemma_nearest_pixel(h, dpi);
    lemma_shorter_is_nearest(14, w, dpi);
    lemma_shorter_is_nearest(34, h, dpi);
    lemma_shorter_is_nearest(48, h, dpi);
    lemma_shorter_is_nearest(126, h, dpi);
    if side_by_side(s) {
        assert(w == 468 && h == 188);
        lemma_shorter_is_nearest(12, w, dpi);
        lemma_shorter_is_nearest(214, w, dpi);
    } else {
        assert(w == 302);
        lemma_shorter_is_nearest(274, w, dpi);
        if s.show_claude_code && s.show_codex {
            assert(h == 326);
            lemma_shorter_is_nearest(138, h, dpi);
        } else {
            assert(h == 188);
        }
    }
    if dpi <= 10 {
        lemma_small_dpi(dpi);
    }
}

/// Two cards do not overlap.
pub proof fn cards_do_not_overlap(s: AppStateView, dpi: u32)
    ensures
        ({
            let a = first_card(s, dpi);
            let b = second_card(s, dpi);
            a.2 <= b.0 || a.3 <= b.1
        }),
{
    scaling_is_monotone(SERVICE_CARD_H, 138, dpi);
    scaling_grows_with_dpi(SERVICE_GAP, 0, dpi);
}

/// The view of a thing to draw tells what it is, and each of its parts by itself.
pub proof fn the_view_tells_the_drawing(op: DrawOp)
    ensures
        op matches DrawOp::Fill { rect, color } ==> op@ == (DrawOpView::Fill {
            rect: (rect.left as int, rect.top as int, rect.right as int, rect.bottom as int),
            color,
        }),
        op matches DrawOp::Text { text, rect, style } ==> op@ == (DrawOpView::Text {
            text: text@,
            rect: (rect.left as int, rect.top as int, rect.right as int, rect.bottom as int),
            style,
        }),
        op matches DrawOp::Round { region: r, diameter, color } ==> op@ == (DrawOpView::Round {
            region: (r.left as int, r.top as int, r.right as int, r.bottom as int),
            diameter: diameter as int,
            color,
        }),
        op matches DrawOp::Icon { x, y, size } ==> op@ == (DrawOpView::Icon {
            x: x as int,
            y: y as int,
            size: size as int,
        }),
        op matches DrawOp::Bar { bar, width, region: r, diameter, percent } ==> op@ == (
        DrawOpView::Bar {
            bar: (bar.left as int, bar.top as int, bar.right as int, bar.bottom as int),
            width: width as int,
            region: (r.left as int, r.top as int, r.right as int, r.bottom as int),
            diameter: diameter as int,
            percent,
        }),
{
}

/// The entry `i` of a picture is this text.
pub open spec fn shows_text(ops: Seq<DrawOpView>, i: int, wanted: Seq<char>) -> bool {
    ops[i] matches DrawOpView::Text { text, .. } && text == wanted
}

/// The entry `i` of a picture is a bar filled to this percentage.
pub open spec fn shows_bar(ops: Seq<DrawOpView>, i: int, wanted: u64) -> bool {
    ops[i] matches DrawOpView::Bar { percent, .. } && percent == wanted
}

/// The rows of a card whose title is the entry `i` of a picture are those of the
/// first model: the label, the text and the bar of its session limit, and those
/// of its weekly limit.
pub open spec fn shows_the_first_model(
    ops: Seq<DrawOpView>,
    i: int,
    s: AppStateView,
    catalog: Catalog,
) -> bool {
    &&& shows_text(ops, i, catalog.claude_code_card@)
    &&& shows_text(ops, i + 1, catalog.entry(s.language).strings.session_window@)
    &&& shows_text(ops, i + 2, s.session_text)
    &&& shows_bar(ops, i + 4, s.session_percent)
    &&& shows_text(ops, i + 5, catalog.entry(s.language).strings.weekly_window@)
    &&& shows_text(ops, i + 6, s.weekly_text)
    &&& shows_bar(ops, i + 8, s.weekly_percent)
}

/// The rows of a card whose title is the entry `i` of a picture are those of the
/// second model.
pub open spec fn shows_the_second_model(
    ops: Seq<DrawOpView>,
    i: int,
    s: AppStateView,
    catalog: Catalog,
) -> bool {
    &&& shows_text(ops, i, "ChatGPT"@)
    &&& shows_text(ops, i + 1, catalog.entry(s.language).strings.session_window@)
    &&& shows_text(ops, i + 2, s.codex_session_text)
    &&& shows_bar(ops, i + 4, s.codex_session_percent)
    &&& shows_text(ops, i + 5, catalog.entry(s.language).strings.weekly_window@)
    &&& shows_text(ops, i + 6, s.codex_weekly_text)
    &&& shows_bar(ops, i + 8, s.codex_weekly_percent)
}

/// Every row of the picture shows its own limit: the first card those of the
/// first model, or of the second where only that is shown; the second card those
/// of the second model. The title stands above them, in the language of the
/// state.
pub proof fn rows_show_their_own_limits(
    s: AppStateView,
    dpi: u32,
    width: int,
    height: int,
    catalog: Catalog,
    version: Seq<char>,
)
    requires
        width > 0,
        height > 0,
    ensures
        ({
            let ops = painted((AppView { dpi, state: Some(s) }), width, height, catalog, version);
            let title = catalog.entry(s.language).strings.window_title@;
            &&& shows_text(ops, 4, title + " "@ + shown_version(version))
            &&& shows_text(ops, 6, "x"@)
            &&& s.show_claude_code ==> shows_the_first_model(ops, 9, s, catalog)
            &&& s.show_claude_code && s.show_codex ==> shows_the_second_model(ops, 20, s, catalog)
            &&& !s.show_claude_code && s.show_codex ==> shows_the_second_model(ops, 9, s, catalog)
            &&& ops.len() == 7 + (if s.show_claude_code {
                11
            } else {
                0int
            }) + (if s.show_codex {
                11
            } else {
                0int
            })
        }),
{
}

/// Nothing is drawn before there is a state, nor in a window without room.
pub proof fn nothing_is_drawn_without_room(
    a: AppView,
    width: int,
    height: int,
    catalog: Catalog,
    version: Seq<char>,
)
    ensures
        (painted(a, width, height, catalog, version).len() == 0) == (a.state is None || width <= 0
            || height <= 0),
{
}

/// The four entries from `i` on are a row: the label and the value share a line
/// without a gap between them, above a bar as wide as both, which lies just on
/// its track.
pub open spec fn is_a_row(ops: Seq<DrawOpView>, i: int) -> bool {
    &&& ops[i] matches DrawOpView::Text { rect: label, style: label_style, .. }
    &&& ops[i + 1] matches DrawOpView::Text { rect: value, style: value_style, .. }
    &&& ops[i + 2] matches DrawOpView::Round { region: track, diameter: track_diameter, .. }
    &&& ops[i + 3] matches DrawOpView::Bar { bar, width, region, diameter, .. }
    &&& label.1 == value.1 && label.3 == value.3
    &&& label.2 == value.0
    &&& label.0 == bar.0 && value.2 == bar.2
    &&& label.3 <= bar.1 <= bar.3
    &&& width == bar.2 - bar.0
    &&& track == region && track_diameter == diameter
    &&& region == (bar.0, bar.1, bar.2 + 1, bar.3 + 1)
    &&& label_style.font == value_style.font
    &&& label_style.align == Align::Left && value_style.align == Align::Right
}

/// The entries from `i` on are a card: its background lies within its border by a
/// pixel on every side, its title above the rows, and the rows one below the
/// other, as wide and as far from the left edge as each other.
pub open spec fn is_a_card(ops: Seq<DrawOpView>, i: int) -> bool {
    &&& ops[i] matches DrawOpView::Round { region: border, .. }
    &&& ops[i + 1] matches DrawOpView::Round { region: ground, .. }
    &&& ops[i + 2] matches DrawOpView::Text { rect: title, .. }
    &&& ops[i + 3] matches DrawOpView::Text { rect: session, .. }
    &&& ops[i + 6] matches DrawOpView::Bar { bar: session_bar, .. }
    &&& ops[i + 7] matches DrawOpView::Text { rect: weekly, .. }
    &&& ops[i + 10] matches DrawOpView::Bar { bar: weekly_bar, .. }
    &&& ground == (border.0 + 1, border.1 + 1, border.2 - 1, border.3 - 1)
    &&& is_a_row(ops, i + 3)
    &&& is_a_row(ops, i + 7)
    &&& border.1 <= title.1 <= title.3 <= session.1
    &&& title.0 == session.0
    &&& session_bar.0 == weekly_bar.0 && session_bar.2 == weekly_bar.2
    &&& session.1 <= weekly.1
}

/// Every card of the picture is one, whatever the DPI.
pub proof fn cards_keep_together(
    s: AppStateView,
    width: int,
    height: int,
    catalog: Catalog,
    version: Seq<char>,
    dpi: u32,
)
    ensures
        ({
            let ops = content_ops(s, width, height, catalog, version, dpi);
            &&& s.show_claude_code || s.show_codex ==> is_a_card(ops, 7)
            &&& s.show_claude_code && s.show_codex ==> is_a_card(ops, 18)
        }),
{
    scaling_is_monotone(18, 21, dpi);
    scaling_is_monotone(21, 31, dpi);
    scaling_is_monotone(8, 30, dpi);
    scaling_is_monotone(30, 43, dpi);
    scaling_is_monotone(43, 82, dpi);
    scaling_grows_with_dpi(8, 0, dpi);
}

/// The four edges, each this many times as far from zero.
pub open spec fn times(e: (int, int, int, int), k: int) -> (int, int, int, int) {
    (k * e.0, k * e.1, k * e.2, k * e.3)
}

/// `b` is `a` drawn this many times as large. The lines that are a pixel thick
/// stay so: that below the title bar, the border of a card, and the edge that a
/// rounded region has beyond its rectangle.
pub open spec fn is_grown(a: DrawOpView, b: DrawOpView, k: int) -> bool {
    match a {
        DrawOpView::Fill { rect, color } => {
            &&& b matches DrawOpView::Fill { rect: grown, color: same }
            &&& same == color
            &&& grown.0 == k * rect.0 && grown.1 == k * rect.1 && grown.2 == k * rect.2
            &&& grown.3 == k * rect.3 || (rect.3 == rect.1 + 1 && grown.3 == grown.1 + 1)
        },
        DrawOpView::Round { region: r, diameter, color } => {
            &&& b matches DrawOpView::Round { region: grown, diameter: large, color: same }
            &&& same == color && large == k * diameter
            &&& grown == (k * r.0, k * r.1, k * (r.2 - 1) + 1, k * (r.3 - 1) + 1) || grown == (
                k * (r.0 - 1) + 1,
                k * (r.1 - 1) + 1,
                k * r.2,
                k * r.3,
            )
        },
        DrawOpView::Text { text, rect, style } => {
            &&& b matches DrawOpView::Text { text: same, rect: grown, style: large }
            &&& same == text && grown == times(rect, k)
            &&& large.font.height == k * style.font.height && large.font.weight
                == style.font.weight
            &&& large.color == style.color && large.align == style.align && large.ellipsis
                == style.ellipsis
        },
        DrawOpView::Icon { x, y, size } => b == (DrawOpView::Icon {
            x: k * x,
            y: k * y,
            size: k * size,
        }),
        DrawOpView::Bar { bar, width, region, diameter, percent } => {
            &&& b matches DrawOpView::Bar {
                bar: grown,
                width: wide,
                region: r,
                diameter: large,
                percent: same,
            }
            &&& same == percent && grown == times(bar, k) && wide == k * width
            &&& large == k * diameter && r == (grown.0, grown.1, grown.2 + 1, grown.3 + 1)
        },
    }
}

/// Each of the things to draw is that many times as large.
pub open spec fn all_grown(a: Seq<DrawOpView>, b: Seq<DrawOpView>, k: int) -> bool {
    &&& a.len() == b.len()
    &&& forall|i: int| 0 <= i < a.len() ==> is_grown(#[trigger] a[i], b[i], k)
}

proof fn lemma_joined_grow(
    a: Seq<DrawOpView>,
    b: Seq<DrawOpView>,
    c: Seq<DrawOpView>,
    d: Seq<DrawOpView>,
    k: int,
)
    requires
        all_grown(a, c, k),
        all_grown(b, d, k),
    ensures
        all_grown(a + b, c + d, k),
{
    assert forall|i: int| 0 <= i < (a + b).len() implies is_grown(
        #[trigger] (a + b)[i],
        (c + d)[i],
        k,
    ) by {
        if i < a.len() {
            assert((a + b)[i] == a[i] && (c + d)[i] == c[i]);
        } else {
            assert((a + b)[i] == b[i - a.len()] && (c + d)[i] == d[i - a.len()]);
        }
    }
}

proof fn lemma_length(n: int, k: int)
    requires
        -500 <= n <= 500,
        1 <= k <= 1_000_000,
    ensures
        scaled(n, 96 * k) == k * n,
        scaled(n, 96) == n,
{
    lengths_grow_with_the_display(n, k);
    lengths_grow_with_the_display(n, 1);
    assert(n * k == k * n) by (nonlinear_arith);
}

proof fn lemma_spread(k: int, x: int, n: int)
    ensures
        k * (x + n) == k * x + k * n,
        k * (x - n) == k * x - k * n,
{
    assert(k * (x + n) == k * x + k * n) by (nonlinear_arith);
    assert(k * (x - n) == k * x - k * n) by (nonlinear_arith);
}

proof fn lemma_same(k: int, x: int, n: int)
    requires
        x == n,
    ensures
        k * x == k * n,
{
}

proof fn lemma_row_grows(
    x: int,
    y: int,
    width: int,
    label: Seq<char>,
    percent: u64,
    value: Seq<char>,
    matching: bool,
    k: int,
)
    requires
        1 <= k <= 1_000_000,
    ensures
        all_grown(
            row_ops(x, y, width, label, percent, value, matching, 96),
            row_ops(k * x, k * y, k * width, label, percent, value, matching, (96 * k) as u32),
            k,
        ),
{
    let a = row_ops(x, y, width, label, percent, value, matching, 96);
    let b = row_ops(k * x, k * y, k * width, label, percent, value, matching, (96 * k) as u32);
    lemma_length(28, k);
    lemma_length(18, k);
    lemma_length(21, k);
    lemma_length(31, k);
    lemma_length(5, k);
    lemma_length(-12, k);
    lemma_spread(k, x, 28);
    lemma_spread(k, x, width);
    lemma_spread(k, y, 18);
    lemma_spread(k, y, 21);
    lemma_spread(k, y, 31);
    assert(k * 10 == (k * 5) * 2);
    assert(is_grown(a[0], b[0], k));
    assert(is_grown(a[1], b[1], k));
    assert(is_grown(a[2], b[2], k));
    assert(is_grown(a[3], b[3], k));
}

proof fn lemma_card_grows(
    rect: (int, int, int, int),
    name: Seq<char>,
    strings: Strings,
    card: CardFacts,
    matching: bool,
    k: int,
)
    requires
        1 <= k <= 1_000_000,
    ensures
        all_grown(
            card_ops(rect, name, strings, card, matching, 96),
            card_ops(times(rect, k), name, strings, card, matching, (96 * k) as u32),
            k,
        ),
{
    let dpi = (96 * k) as u32;
    let large = times(rect, k);
    let a = card_frame(rect, name, 96);
    let b = card_frame(large, name, dpi);
    lemma_length(8, k);
    lemma_length(9, k);
    lemma_length(12, k);
    lemma_length(24, k);
    lemma_length(30, k);
    lemma_length(43, k);
    lemma_length(82, k);
    lemma_length(-15, k);
    lemma_spread(k, rect.0, 12);
    lemma_spread(k, rect.1, 8);
    lemma_spread(k, rect.2, 12);
    lemma_spread(k, rect.1, 30);
    lemma_spread(k, rect.1, 43);
    lemma_spread(k, rect.1, 82);
    lemma_spread(k, rect.2, rect.0);
    lemma_spread(k, rect.2 - rect.0, 24);
    assert(k * 18 == (k * 9) * 2);
    assert(k * 16 == (k * 8) * 2);
    assert(is_grown(a[0], b[0], k));
    assert(is_grown(a[1], b[1], k));
    assert(is_grown(a[2], b[2], k));
    let x = rect.0 + 12;
    let width = rect.2 - rect.0 - 24;
    lemma_row_grows(
        x,
        rect.1 + 43,
        width,
        strings.session_window@,
        card.session_percent,
        card.session_text,
        matching,
        k,
    );
    lemma_row_grows(
        x,
        rect.1 + 82,
        width,
        strings.weekly_window@,
        card.weekly_percent,
        card.weekly_text,
        matching,
        k,
    );
    let session = row_ops(
        x,
        rect.1 + 43,
        width,
        strings.session_window@,
        card.session_percent,
        card.session_text,
        matching,
        96,
    );
    let large_session = row_ops(
        k * x,
        k * (rect.1 + 43),
        k * width,
        strings.session_window@,
        card.session_percent,
        card.session_text,
        matching,
        dpi,
    );
    let weekly = row_ops(
        x,
        rect.1 + 82,
        width,
        strings.weekly_window@,
        card.weekly_percent,
        card.weekly_text,
        matching,
        96,
    );
    let large_weekly = row_ops(
        k * x,
        k * (rect.1 + 82),
        k * width,
        strings.weekly_window@,
        card.weekly_percent,
        card.weekly_text,
        matching,
        dpi,
    );
    lemma_joined_grow(a, session, b, large_session, k);
    lemma_joined_grow(a + session, weekly, b + large_session, large_weekly, k);
}

proof fn lemma_frame_grows(width: int, height: int, title: Seq<char>, k: int)
    requires
        1 <= k <= 1_000_000,
    ensures
        all_grown(
            frame_ops(width, height, title, 96),
            frame_ops(k * width, k * height, title, (96 * k) as u32),
            k,
        ),
{
    let a = frame_ops(width, height, title, 96);
    let b = frame_ops(k * width, k * height, title, (96 * k) as u32);
    lemma_length(34, k);
    lemma_length(22, k);
    lemma_length(8, k);
    lemma_length(6, k);
    lemma_length(10, k);
    lemma_length(18, k);
    lemma_length(36, k);
    lemma_length(42, k);
    lemma_length(-14, k);
    lemma_length(-15, k);
    lemma_spread(k, width, 42);
    lemma_spread(k, width, 8);
    lemma_spread(k, width - 8, 22);
    assert((k * 34 - k * 22) / 2 == k * 6);
    assert((k * 34 - k * 18) / 2 == k * 8);
    assert(k * 12 == (k * 6) * 2);
    lemma_same(k, a[0]->Fill_rect.0, 0);
    lemma_same(k, a[0]->Fill_rect.1, 0);
    lemma_same(k, a[5]->Round_region.1, 6);
    lemma_same(k, a[5]->Round_region.3 - 1, 28);
    lemma_same(k, a[5]->Round_region.2 - 1, width - 8);
    assert(is_grown(a[0], b[0], k));
    assert(is_grown(a[1], b[1], k));
    assert(is_grown(a[2], b[2], k));
    assert(is_grown(a[3], b[3], k));
    assert(is_grown(a[4], b[4], k));
    assert(is_grown(a[5], b[5], k));
    assert(is_grown(a[6], b[6], k));
}

proof fn lemma_places_grow(s: AppStateView, k: int)
    requires
        1 <= k <= 1_000_000,
    ensures
        first_card(s, (96 * k) as u32) == times(first_card(s, 96), k),
        codex_place(s, (96 * k) as u32) == times(codex_place(s, 96), k),
        state_width(s, (96 * k) as u32) == k * state_width(s, 96),
        state_height(s, (96 * k) as u32) == k * state_height(s, 96),
{
    lemma_length(12, k);
    lemma_length(14, k);
    lemma_length(48, k);
    lemma_length(126, k);
    lemma_length(138, k);
    lemma_length(188, k);
    lemma_length(214, k);
    lemma_length(274, k);
    lemma_length(302, k);
    lemma_length(326, k);
    lemma_length(468, k);
    let first = first_card(s, 96);
    let codex = codex_place(s, 96);
    lemma_same(k, first.0, 14);
    lemma_same(k, first.1, 48);
    lemma_same(k, first.3, 174);
    if side_by_side(s) {
        lemma_same(k, first.2, 228);
        lemma_same(k, codex.0, 240);
        lemma_same(k, codex.1, 48);
        lemma_same(k, codex.2, 454);
        lemma_same(k, codex.3, 174);
    } else {
        lemma_same(k, first.2, 288);
        lemma_same(k, codex.0, 14);
        lemma_same(k, codex.2, 288);
        if s.show_claude_code {
            lemma_same(k, codex.1, 186);
            lemma_same(k, codex.3, 312);
        } else {
            lemma_same(k, codex.1, 48);
            lemma_same(k, codex.3, 174);
        }
    }
}

/// On a display of a multiple of the design density the whole picture is that
/// many times as large, each thing in it where it was, and nothing else about it
/// is different.
pub proof fn pictures_grow_with_the_display(
    s: AppStateView,
    width: int,
    height: int,
    catalog: Catalog,
    version: Seq<char>,
    k: int,
)
    requires
        1 <= k <= 1_000_000,
    ensures
        all_grown(
            content_ops(s, width, height, catalog, version, 96),
            content_ops(s, k * width, k * height, catalog, version, (96 * k) as u32),
            k,
        ),
        state_width(s, (96 * k) as u32) == k * state_width(s, 96),
        state_height(s, (96 * k) as u32) == k * state_height(s, 96),
{
    let dpi = (96 * k) as u32;
    let strings = state_strings(s, catalog);
    let title = title_text(strings.window_title@, version);
    lemma_places_grow(s, k);
    lemma_frame_grows(width, height, title, k);
    lemma_card_grows(
        first_card(s, 96),
        catalog.claude_code_card@,
        strings,
        claude_card(s),
        both_shown(s),
        k,
    );
    lemma_card_grows(codex_place(s, 96), CODEX_CARD@, strings, codex_card(s), both_shown(s), k);
    let frame = frame_ops(width, height, title, 96);
    let large_frame = frame_ops(k * width, k * height, title, dpi);
    lemma_joined_grow(frame, claude_ops(s, catalog, 96), large_frame, claude_ops(s, catalog, dpi), k);
    lemma_joined_grow(
        frame + claude_ops(s, catalog, 96),
        codex_ops(s, catalog, 96),
        large_frame + claude_ops(s, catalog, dpi),
        codex_ops(s, catalog, dpi),
        k,
    );
}

/// On a display of a multiple of the design density the cards fill the widget:
/// the space before the first card, behind the last, below the title bar and
/// below the last card is the same.
pub proof fn cards_fill_the_widget(s: AppStateView, k: int)
    requires
        1 <= k <= 1_000_000,
        s.show_claude_code || s.show_codex,
    ensures
        ({
            let dpi = (96 * k) as u32;
            let first = first_card(s, dpi);
            let last = if s.show_codex {
                codex_place(s, dpi)
            } else {
                first
            };
            let pad = 14 * k;
            &&& first.0 == pad
            &&& first.1 == scaled(34, dpi as int) + pad
            &&& last.2 + pad == state_width(s, dpi)
            &&& last.3 + pad == state_height(s, dpi)
            &&& s.show_claude_code && s.show_codex && s.layout_horizontal ==> last.0 == first.2
                + 12 * k && last.1 == first.1
            &&& s.show_claude_code && s.show_codex && !s.layout_horizontal ==> last.1 == first.3
                + 12 * k && last.0 == first.0
        }),
{
    lemma_places_grow(s, k);
    lemma_length(34, k);
    lemma_length(12, k);
    lemma_length(14, k);
    lemma_length(48, k);
    lemma_length(126, k);
    lemma_length(138, k);
    lemma_length(188, k);
    lemma_length(214, k);
    lemma_length(274, k);
    lemma_length(302, k);
    lemma_length(326, k);
    lemma_length(468, k);
}

/// The filled part of a bar begins where the bar does, is as high, and is as wide
/// as it is to be, but no wider than the bar; there is none just where the width
/// is not positive.
pub proof fn fills_begin_at_the_left(bar: Rect, fill_w: i32)
    ensures
        (filled(bar, fill_w) is None) == (fill_w <= 0),
        filled(bar, fill_w) matches Some(fill) ==> {
            &&& fill.left == bar.left && fill.top == bar.top && fill.bottom == bar.bottom
            &&& fill_w <= bar.right - bar.left ==> fill.right - fill.left == fill_w
            &&& fill_w > bar.right - bar.left ==> fill.right == bar.right
        },
{
}

/// A color's number is made up of its three parts again, red first.
pub proof fn colors_are_their_numbers(n: u32)
    requires
        n <= 0xFFFFFF,
    ensures
        rgb(n).r * 0x10000 + rgb(n).g * 0x100 + rgb(n).b == n,
{
}

/// The entry `i` of a picture fills this region with this color.
pub open spec fn fills_round(
    ops: Seq<DrawOpView>,
    i: int,
    rect: (int, int, int, int),
    wanted: Color,
) -> bool {
    ops[i] matches DrawOpView::Round { region, color, .. } && color == wanted && region == (
        rect.0,
        rect.1,
        rect.2 + 1,
        rect.3 + 1,
    )
}

/// The entry `i` of a picture is a text in this color.
pub open spec fn shows_in(ops: Seq<DrawOpView>, i: int, wanted: Color) -> bool {
    ops[i] matches DrawOpView::Text { style, .. } && style.color == TextColor::Fixed(wanted)
}

/// The card of the first model stands in the first place; that of the second in
/// the second, or in the first where the first model is not shown. The cards, the
/// labels and the tracks have their colors.
pub proof fn cards_stand_in_their_places(
    s: AppStateView,
    width: int,
    height: int,
    catalog: Catalog,
    version: Seq<char>,
    dpi: u32,
)
    ensures
        ({
            let ops = content_ops(s, width, height, catalog, version, dpi);
            let border = Color { r: 0x24, g: 0x24, b: 0x24 };
            let ground = Color { r: 0x0D, g: 0x0D, b: 0x0D };
            let track = Color { r: 0x26, g: 0x26, b: 0x26 };
            let white = Color { r: 0xFF, g: 0xFF, b: 0xFF };
            let muted = Color { r: 0xA3, g: 0xA3, b: 0xA3 };
            &&& s.show_claude_code || s.show_codex ==> {
                &&& fills_round(ops, 7, first_card(s, dpi), border)
                &&& ops[8]->Round_color == ground
                &&& shows_in(ops, 9, white)
                &&& shows_in(ops, 10, muted) && shows_in(ops, 14, muted)
                &&& ops[12]->Round_color == track && ops[16]->Round_color == track
            }
            &&& s.show_claude_code && s.show_codex ==> {
                &&& fills_round(ops, 18, second_card(s, dpi), border)
                &&& ops[19]->Round_color == ground
                &&& shows_in(ops, 20, white)
                &&& shows_in(ops, 21, muted) && shows_in(ops, 25, muted)
                &&& ops[23]->Round_color == track && ops[27]->Round_color == track
            }
        }),
{
}

proof fn lemma_title_has_room(dpi: u32)
    ensures
        scaled(10, dpi as int) + scaled(18, dpi as int) <= scaled(36, dpi as int),
        scaled(8, dpi as int) + scaled(22, dpi as int) <= scaled(42, dpi as int),
{
    let d = dpi as int;
    assert(scaled(10, d) == (20 * d + 96) / 192);
    assert(scaled(18, d) == (36 * d + 96) / 192);
    assert(scaled(36, d) == (72 * d + 96) / 192);
    assert(scaled(8, d) == (16 * d + 96) / 192);
    assert(scaled(22, d) == (44 * d + 96) / 192);
    assert(scaled(42, d) == (84 * d + 96) / 192);
    if d < 24 {
        assert(d == 0 || d == 1 || d == 2 || d == 3 || d == 4 || d == 5 || d == 6 || d == 7 || d
            == 8 || d == 9 || d == 10 || d == 11 || d == 12 || d == 13 || d == 14 || d == 15 || d
            == 16 || d == 17 || d == 18 || d == 19 || d == 20 || d == 21 || d == 22 || d == 23);
    }
}

/// The background covers the window, the title bar its whole width at the top,
/// with a line of a pixel below it. The title stands in the bar, as high as it,
/// between the icon and the close button; the sign on that button covers just
/// the button.
pub proof fn the_title_bar_spans_the_window(
    s: AppStateView,
    width: int,
    height: int,
    catalog: Catalog,
    version: Seq<char>,
    dpi: u32,
)
    ensures
        ({
            let ops = content_ops(s, width, height, catalog, version, dpi);
            let bar = scaled(34, dpi as int);
            let close = close_button(width, dpi as int);
            &&& ops[0] == (DrawOpView::Fill {
                rect: (0, 0, width, height),
                color: Color { r: 5, g: 5, b: 5 },
            })
            &&& ops[1] == (DrawOpView::Fill {
                rect: (0, 0, width, bar),
                color: Color { r: 0x11, g: 0x11, b: 0x11 },
            })
            &&& ops[2] == (DrawOpView::Fill {
                rect: (0, bar, width, bar + 1),
                color: Color { r: 0x2A, g: 0x2A, b: 0x2A },
            })
            &&& ops[3] matches DrawOpView::Icon { x, y, size } && x + size <= ops[4]->Text_rect.0
                && 0 <= y && (bar - size) - 2 * y <= 1 && 2 * y <= bar - size
            &&& ops[4]->Text_rect.1 == 0 && ops[4]->Text_rect.3 == bar
            &&& ops[4]->Text_rect.2 <= close.0
            &&& shows_in(ops, 4, Color { r: 0xFF, g: 0xFF, b: 0xFF })
            &&& fills_round(ops, 5, close, Color { r: 0x1E, g: 0x1E, b: 0x1E })
            &&& ops[6]->Text_rect == close
            &&& shows_in(ops, 6, Color { r: 0xD4, g: 0xD4, b: 0xD4 })
            &&& ops[6]->Text_style.align == Align::Center
        }),
{
    scaling_is_monotone(18, TITLEBAR_H, dpi);
    lemma_title_has_room(dpi);
}

/// The entry `i` of a picture is a text with these edges, this height and weight
/// of its font, and this place in its rectangle.
pub open spec fn is_set(
    ops: Seq<DrawOpView>,
    i: int,
    edges: (int, int, int, int),
    height: int,
    bold: i32,
    place: Align,
    cut: bool,
) -> bool {
    &&& ops[i] matches DrawOpView::Text { rect, style, .. }
    &&& rect == edges
    &&& style.font.height == height && style.font.weight == bold
    &&& style.align == place && style.ellipsis == cut
}

/// The four entries from `i` on are a row whose upper left corner is at `x`, `y`
/// and whose right edge is at `right`, with the measures of a row this many times
/// as large as it was designed.
pub open spec fn row_is_set(
    ops: Seq<DrawOpView>,
    i: int,
    x: int,
    y: int,
    right: int,
    k: int,
) -> bool {
    &&& is_set(ops, i, (x, y, x + 28 * k, y + 18 * k), -12 * k, 500, Align::Left, false)
    &&& is_set(ops, i + 1, (x + 28 * k, y, right, y + 18 * k), -12 * k, 500, Align::Right, true)
    &&& ops[i + 2]->Round_diameter == 10 * k
    &&& ops[i + 3]->bar == (x, y + 21 * k, right, y + 31 * k)
}

/// The entries from `i` on are a card with these edges, with the measures of a
/// card this many times as large as it was designed.
pub open spec fn card_is_set(
    ops: Seq<DrawOpView>,
    i: int,
    card: (int, int, int, int),
    k: int,
) -> bool {
    let (left, top, right, bottom) = card;
    &&& ops[i]->Round_region == (left, top, right + 1, bottom + 1)
    &&& ops[i]->Round_diameter == 18 * k && ops[i + 1]->Round_diameter == 16 * k
    &&& is_set(
        ops,
        i + 2,
        (left + 12 * k, top + 8 * k, right - 12 * k, top + 30 * k),
        -15 * k,
        600,
        Align::Left,
        true,
    )
    &&& row_is_set(ops, i + 3, left + 12 * k, top + 43 * k, right - 12 * k, k)
    &&& row_is_set(ops, i + 7, left + 12 * k, top + 82 * k, right - 12 * k, k)
}

proof fn lemma_card_is_set(
    rect: (int, int, int, int),
    name: Seq<char>,
    strings: Strings,
    card: CardFacts,
    matching: bool,
    k: int,
)
    requires
        1 <= k <= 1_000_000,
    ensures
        card_is_set(card_ops(rect, name, strings, card, matching, (96 * k) as u32), 0, rect, k),
{
    lemma_length(5, k);
    lemma_length(8, k);
    lemma_length(9, k);
    lemma_length(12, k);
    lemma_length(18, k);
    lemma_length(21, k);
    lemma_length(24, k);
    lemma_length(28, k);
    lemma_length(30, k);
    lemma_length(31, k);
    lemma_length(43, k);
    lemma_length(82, k);
    lemma_length(-12, k);
    lemma_length(-15, k);
}

/// On a display of a multiple of the design density everything in the picture has
/// its measures: the title bar and what stands in it, the cards, their titles and
/// their rows.
pub proof fn pictures_keep_their_measures(
    s: AppStateView,
    width: int,
    height: int,
    catalog: Catalog,
    version: Seq<char>,
    k: int,
)
    requires
        1 <= k <= 1_000_000,
    ensures
        ({
            let dpi = (96 * k) as u32;
            let ops = content_ops(s, width, height, catalog, version, dpi);
            let close = (width - 30 * k, 6 * k, width - 8 * k, 28 * k);
            &&& ops[3] == (DrawOpView::Icon { x: 10 * k, y: 8 * k, size: 18 * k })
            &&& is_set(
                ops,
                4,
                (36 * k, 0, width - 42 * k, 34 * k),
                -14 * k,
                600,
                Align::Left,
                true,
            )
            &&& ops[5]->Round_region == (close.0, close.1, close.2 + 1, close.3 + 1)
            &&& ops[5]->Round_diameter == 12 * k
            &&& is_set(ops, 6, close, -15 * k, 500, Align::Center, false)
            &&& s.show_claude_code || s.show_codex ==> card_is_set(ops, 7, first_card(s, dpi), k)
            &&& s.show_claude_code && s.show_codex ==> card_is_set(ops, 18, second_card(s, dpi), k)
        }),
{
    let dpi = (96 * k) as u32;
    let strings = state_strings(s, catalog);
    let ops = content_ops(s, width, height, catalog, version, dpi);
    lemma_length(6, k);
    lemma_length(8, k);
    lemma_length(10, k);
    lemma_length(18, k);
    lemma_length(22, k);
    lemma_length(34, k);
    lemma_length(36, k);
    lemma_length(42, k);
    lemma_length(-14, k);
    lemma_length(-15, k);
    assert((k * 34 - k * 22) / 2 == 6 * k);
    assert((k * 34 - k * 18) / 2 == 8 * k);
    let first = claude_ops(s, catalog, dpi);
    let second = codex_ops(s, catalog, dpi);
    lemma_card_is_set(
        first_card(s, dpi),
        catalog.claude_code_card@,
        strings,
        claude_card(s),
        both_shown(s),
        k,
    );
    lemma_card_is_set(codex_place(s, dpi), CODEX_CARD@, strings, codex_card(s), both_shown(s), k);
    if s.show_claude_code {
        assert forall|j: int| 0 <= j < 11 implies ops[7 + j] == #[trigger] first[j] by {}
        lemma_card_moves(first, ops, 7, first_card(s, dpi), k);
        if s.show_codex {
            assert forall|j: int| 0 <= j < 11 implies ops[18 + j] == #[trigger] second[j] by {}
            lemma_card_moves(second, ops, 18, codex_place(s, dpi), k);
        }
    } else if s.show_codex {
        assert forall|j: int| 0 <= j < 11 implies ops[7 + j] == #[trigger] second[j] by {}
        lemma_card_moves(second, ops, 7, codex_place(s, dpi), k);
    }
}

proof fn lemma_card_moves(
    card: Seq<DrawOpView>,
    ops: Seq<DrawOpView>,
    at: int,
    rect: (int, int, int, int),
    k: int,
)
    requires
        card_is_set(card, 0, rect, k),
        forall|j: int| 0 <= j < 11 ==> ops[at + j] == #[trigger] card[j],
    ensures
        card_is_set(ops, at, rect, k),
{
    assert(ops[at] == card[0] && ops[at + 1] == card[1] && ops[at + 2] == card[2]);
    assert(ops[at + 3] == card[3] && ops[at + 4] == card[4] && ops[at + 5] == card[5]);
    assert(ops[at + 6] == card[6] && ops[at + 7] == card[7] && ops[at + 8] == card[8]);
    assert(ops[at + 9] == card[9] && ops[at + 10] == card[10]);
}

} // verus!
