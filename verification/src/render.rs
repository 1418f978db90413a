//! Log-entry rendering.
//!
//! One event becomes a boxed block: a divider/header/divider section above
//! and below the formatted payload. The header and dividers are painted in
//! the topic's derived color and bold, the payload in bright white. Whether
//! paint is actually applied depends on the terminal and environment, so the
//! contracts state the block's structure exactly and the painted pieces as
//! embeddings of their plain text.

use vstd::prelude::*;

use colored::Colorize;

verus! {

use vstd::string::StringExecFns;
use crate::color::derive_color_from_string;
use crate::layout::build_header;
use crate::layout::rule_of;
use crate::layout::spec_build_header;
use crate::payload::format_payload;
use crate::payload::spec_format_payload;

/// The width assumed when the terminal's cannot be determined.
pub const FALLBACK_TERMINAL_WIDTH: usize = 96;

/// Whether a text contains no escape character, so that styling can only
/// wrap it, never rewrite it.
pub open spec fn esc_free(s: Seq<char>) -> bool {
    forall|i: int| 0 <= i < s.len() ==> s[i] != '\u{1b}'
}

/// Whether `styled` is exactly `plain` between one (possibly empty) prefix
/// and one (possibly empty) suffix.
pub open spec fn wraps(plain: Seq<char>, styled: Seq<char>) -> bool {
    exists|p: Seq<char>, q: Seq<char>| styled == #[trigger] (p + plain + q)
}

/// Whether `styled` renders `plain`: styling an escape-free text only wraps
/// it; of a text carrying escape characters nothing is stated.
pub open spec fn styles(plain: Seq<char>, styled: Seq<char>) -> bool {
    esc_free(plain) ==> wraps(plain, styled)
}

/// Relies on `colored`: painting a text with a truecolor foreground and bold
/// leaves the text itself intact between one style prefix and one reset
/// suffix, or returns it unchanged where coloring is disabled, as long as
/// the text holds no escape character of its own.
#[verifier::external_body]
fn paint_bold(text: &str, r: u8, g: u8, b: u8) -> (out: String)
    ensures
        styles(text@, out@),
{
    format!("{}", text.color(colored::Color::TrueColor { r, g, b }).bold())
}

/// Relies on `colored`: as `paint_bold`, for the bright-white style.
#[verifier::external_body]
fn paint_bright_white(text: &str) -> (out: String)
    ensures
        styles(text@, out@),
{
    format!("{}", text.bright_white())
}

/// Relies on `chrono::Utc::now().to_rfc3339()`: the clock decides the value,
/// so nothing is promised of it.
#[verifier::external_body]
fn now_rfc3339() -> String {
    chrono::Utc::now().to_rfc3339()
}

/// Relies on `term_size::dimensions`: the terminal decides the value, so
/// nothing is promised of it.
#[verifier::external_body]
fn terminal_width() -> Option<usize> {
    term_size::dimensions().map(|(w, _)| w)
}

/// The rendered block assembled from a styled divider, header, and body:
/// the divider/header/divider section, the body, the same section again,
/// each line ended by a newline.
pub open spec fn framed(dc: Seq<char>, hc: Seq<char>, bc: Seq<char>) -> Seq<char> {
    let nl = seq!['\n'];
    let section = dc + nl + hc + nl + dc;
    section + nl + bc + nl + section + nl
}

/// Whether `out` is the log entry for `topic` and `payload` rendered at
/// `width` columns with timestamp `ts`: the exact frame built from some
/// styled forms of the header, of a divider of the header's length, and of
/// the formatted payload.
pub open spec fn is_rendered_entry(
    topic: Seq<char>,
    payload: Seq<char>,
    ts: Seq<char>,
    width: nat,
    out: Seq<char>,
) -> bool {
    exists|dc: Seq<char>, hc: Seq<char>, bc: Seq<char>|
        {
            let header = spec_build_header(topic, ts, width);
            &&& styles(rule_of(header.len()), dc)
            &&& styles(header, hc)
            &&& styles(spec_format_payload(payload), bc)
            &&& out == #[trigger] framed(dc, hc, bc)
        }
}

/// Renders one event as a colorized, boxed log block, for a given timestamp
/// and terminal width.
pub fn render_entry(topic: &str, payload: &str, timestamp: &str, width: usize) -> (out: String)
    ensures
        is_rendered_entry(topic@, payload@, timestamp@, width as nat, out@),
{
    let color = derive_color_from_string(topic);
    let body = format_payload(payload);
    let (header, divider) = build_header(topic, timestamp, width);
    let styled_divider = paint_bold(divider.as_str(), color.r, color.g, color.b);
    let styled_header = paint_bold(header.as_str(), color.r, color.g, color.b);
    let styled_body = paint_bright_white(body.as_str());
    let mut section = styled_divider.clone();
    section.append("\n");
    section.append(styled_header.as_str());
    section.append("\n");
    section.append(styled_divider.as_str());
    let mut out = section.clone();
    out.append("\n");
    out.append(styled_body.as_str());
    out.append("\n");
    out.append(section.as_str());
    out.append("\n");
    proof {
        reveal_strlit("\n");
        assert("\n"@ =~= seq!['\n']);
        assert(out@ =~= framed(styled_divider@, styled_header@, styled_body@));
        assert(is_rendered_entry(topic@, payload@, timestamp@, width as nat, out@)) by {
            assert(out@ == framed(styled_divider@, styled_header@, styled_body@));
        }
    }
    out
}

/// Whether `out` is the log entry for `topic` and `payload` rendered at some
/// width with some timestamp.
pub open spec fn is_log_block(topic: Seq<char>, payload: Seq<char>, out: Seq<char>) -> bool {
    exists|ts: Seq<char>, width: nat|
        #[trigger] is_rendered_entry(topic, payload, ts, width, out)
}

/// Renders one event at the terminal's current width (96 columns when it
/// cannot be determined), timestamping it with the current time. The clock
/// and the terminal decide the timestamp and width, so the contract states
/// only that the result is a correctly framed entry for some such pair.
pub fn format_mqtt_log_entry(topic: &str, payload: &str) -> (out: String)
    ensures
        is_log_block(topic@, payload@, out@),
{
    let width = match terminal_width() {
        Some(w) => w,
        None => FALLBACK_TERMINAL_WIDTH,
    };
    let timestamp = now_rfc3339();
    let out = render_entry(topic, payload, timestamp.as_str(), width);
    proof {
        assert(is_rendered_entry(topic@, payload@, timestamp@, width as nat, out@));
    }
    out
}

} // verus!
