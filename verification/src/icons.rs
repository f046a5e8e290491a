//! Inline SVG line icons for the touch strip, in the style of Elgato's own
//! dial layouts: white 2px round-cap strokes on a 24x24 grid. OpenDeck's
//! strip renderer (resvg) accepts an SVG string directly as a pixmap value.
//!
//! Numbers that appear in the markup (opacities, needle coordinates) are kept
//! as the decimal text they are written as.
use vstd::prelude::*;
use vstd::string::*;

verus! {

/// Opening of every icon, up to the stroke opacity.
pub open spec fn svg_head() -> Seq<char> {
    "<svg xmlns=\"http://www.w3.org/2000/svg\" viewBox=\"0 0 24 24\" fill=\"none\" stroke=\"#ffffff\" stroke-width=\"2\" stroke-linecap=\"round\" stroke-linejoin=\"round\" stroke-opacity=\""@
}

/// An icon with the given stroke opacity and inner markup.
pub open spec fn svg_text(opacity: Seq<char>, body: Seq<char>) -> Seq<char> {
    svg_head() + opacity + "\">"@ + body + "</svg>"@
}

/// Stroke opacity of a side icon: full when its direction is open, dimmed
/// when the dial is already clamped at that end.
pub open spec fn spec_opacity(enabled: bool) -> Seq<char> {
    if enabled {
        "1"@
    } else {
        "0.3"@
    }
}

/// Markup of the leaf icon.
pub open spec fn leaf_body() -> Seq<char> {
    "<path d=\"M5 19C5 10 10 5 20 4C20 14 15 19 5 19Z\"/><path d=\"M5 19L13 11\"/>"@
}

/// Markup of the lightning-bolt icon.
pub open spec fn bolt_body() -> Seq<char> {
    "<path d=\"M13 2L4 14H11L10 22L20 10H13Z\"/>"@
}

/// The leaf hint, dimmed unless `enabled`.
pub open spec fn spec_leaf(enabled: bool) -> Seq<char> {
    svg_text(spec_opacity(enabled), leaf_body())
}

/// The bolt hint, dimmed unless `enabled`.
pub open spec fn spec_bolt(enabled: bool) -> Seq<char> {
    svg_text(spec_opacity(enabled), bolt_body())
}

/// Tip of the needle for profile position `i`: up-left, straight up and
/// up-right from the hub at (12, 16), 7 units long.
pub open spec fn spec_needle_tip(i: int) -> (Seq<char>, Seq<char>) {
    if i == 0 {
        ("5.94"@, "12.5"@)
    } else if i == 1 {
        ("12"@, "9"@)
    } else {
        ("18.06"@, "12.5"@)
    }
}

/// The gauge's arc, drawn in `dial_color`.
pub open spec fn dial_text(dial_color: Seq<char>) -> Seq<char> {
    "<path d=\"M2.6 19.42A10 10 0 1 1 21.4 19.42\" stroke=\""@ + dial_color + "\"/>"@
}

/// The needle pointing at profile position `i`, with its hub, in `color`.
pub open spec fn needle_text(i: int, color: Seq<char>) -> Seq<char> {
    "<path d=\"M12 16L"@ + spec_needle_tip(i).0 + " "@ + spec_needle_tip(i).1 + "\" stroke=\""@
        + color + "\"/><circle cx=\"12\" cy=\"16\" r=\"1.5\" fill=\""@ + color + "\" stroke=\""@
        + color + "\"/>"@
}

/// The whole gauge icon; `None` leaves the needle out.
pub open spec fn spec_gauge(needle: Option<(int, Seq<char>)>, dial_color: Seq<char>) -> Seq<char> {
    let needle_part = match needle {
        Some((i, color)) => needle_text(i, color),
        None => Seq::empty(),
    };
    svg_text("1"@, dial_text(dial_color) + needle_part)
}

fn svg(opacity: &str, body: &str) -> (icon: String)
    ensures
        icon@ == svg_text(opacity@, body@),
{
    let icon = String::from_str(
        "<svg xmlns=\"http://www.w3.org/2000/svg\" viewBox=\"0 0 24 24\" fill=\"none\" stroke=\"#ffffff\" stroke-width=\"2\" stroke-linecap=\"round\" stroke-linejoin=\"round\" stroke-opacity=\"",
    );
    let icon = icon.concat(opacity).concat("\">").concat(body).concat("</svg>");
    icon
}

fn opacity_for(enabled: bool) -> (opacity: &'static str)
    ensures
        opacity@ == spec_opacity(enabled),
{
    if enabled {
        "1"
    } else {
        "0.3"
    }
}

fn needle_tip(idx: usize) -> (tip: (&'static str, &'static str))
    requires
        idx < 3,
    ensures
        (tip.0@, tip.1@) == spec_needle_tip(idx as int),
{
    if idx == 0 {
        ("5.94", "12.5")
    } else if idx == 1 {
        ("12", "9")
    } else {
        ("18.06", "12.5")
    }
}

/// Leaf - the "rotate left" hint towards Power Saver.
pub fn leaf(enabled: bool) -> (icon: String)
    ensures
        icon@ == spec_leaf(enabled),
{
    svg(
        opacity_for(enabled),
        "<path d=\"M5 19C5 10 10 5 20 4C20 14 15 19 5 19Z\"/><path d=\"M5 19L13 11\"/>",
    )
}

/// Lightning bolt - the "rotate right" hint towards Performance.
pub fn bolt(enabled: bool) -> (icon: String)
    ensures
        icon@ == spec_bolt(enabled),
{
    svg(opacity_for(enabled), "<path d=\"M13 2L4 14H11L10 22L20 10H13Z\"/>")
}

/// Speedometer whose needle points at the active profile, drawn in
/// `color`. `None` draws an empty dial (no needle) for unknown/unavailable.
pub fn gauge(needle: Option<(usize, &str)>, dial_color: &str) -> (icon: String)
    requires
        needle matches Some((idx, _)) ==> idx < 3,
    ensures
        icon@ == spec_gauge(
            match needle {
                Some((idx, color)) => Some((idx as int, color@)),
                None => None,
            },
            dial_color@,
        ),
{
    let dial = String::from_str("<path d=\"M2.6 19.42A10 10 0 1 1 21.4 19.42\" stroke=\"")
        .concat(dial_color).concat("\"/>");
    let body = match needle {
        Some((idx, color)) => {
            let (x, y) = needle_tip(idx);
            dial.concat("<path d=\"M12 16L").concat(x).concat(" ").concat(y).concat(
                "\" stroke=\"",
            ).concat(color).concat("\"/><circle cx=\"12\" cy=\"16\" r=\"1.5\" fill=\"").concat(
                color,
            ).concat("\" stroke=\"").concat(color).concat("\"/>")
        },
        None => dial,
    };
    svg("1", body.as_str())
}

} // verus!
