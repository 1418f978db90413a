//! Width-aware header and divider layout.
//!
//! The header shows the topic on the left and the timestamp right-justified
//! at the terminal's width; a topic too long for the space left of the
//! timestamp is truncated and marked with an ellipsis. The divider is a
//! horizontal rule exactly as long as the header.

use vstd::prelude::*;

verus! {

use vstd::string::StrSliceExecFns;
use vstd::string::StringExecFns;

/// A run of `n` spaces.
pub open spec fn spaces(n: nat) -> Seq<char> {
    Seq::new(n, |i: int| ' ')
}

/// A horizontal rule of `n` columns.
pub open spec fn rule_of(n: nat) -> Seq<char> {
    Seq::new(n, |i: int| '─')
}

/// The topic as the header shows it: unchanged when it fits in
/// `max_topic_width` columns, else cut to `max_topic_width - 1` characters
/// with an ellipsis glyph appended (to a bare ellipsis when the width is 0).
pub open spec fn spec_truncate_topic(topic: Seq<char>, max_topic_width: nat) -> Seq<char> {
    if topic.len() > max_topic_width {
        let keep = if max_topic_width == 0 {
            0
        } else {
            max_topic_width - 1
        };
        topic.take(keep as int).push('…')
    } else {
        topic
    }
}

/// The header line: the (already truncated) topic, padding spaces, and the
/// timestamp, padded so the whole line spans `width` columns; padding is
/// floored at zero, and a topic that overflows the width stands alone.
pub open spec fn spec_header(truncated: Seq<char>, timestamp: Seq<char>, width: nat) -> Seq<char> {
    if truncated.len() <= width {
        let pad = if width >= truncated.len() + timestamp.len() {
            (width - truncated.len() - timestamp.len()) as nat
        } else {
            0
        };
        truncated + spaces(pad) + timestamp
    } else {
        truncated
    }
}

/// The number of columns left for the topic: the width minus the timestamp
/// and one separator column, floored at zero.
pub open spec fn spec_max_topic_width(timestamp: Seq<char>, width: nat) -> nat {
    if width > timestamp.len() {
        (width - timestamp.len() - 1) as nat
    } else {
        0
    }
}

/// The full header built from a raw topic, a timestamp, and the terminal
/// width.
pub open spec fn spec_build_header(topic: Seq<char>, timestamp: Seq<char>, width: nat) -> Seq<char> {
    spec_header(
        spec_truncate_topic(topic, spec_max_topic_width(timestamp, width)),
        timestamp,
        width,
    )
}

fn repeat_spaces(n: usize) -> (r: String)
    ensures
        r@ == spaces(n as nat),
{
    let mut s = String::new();
    let mut i: usize = 0;
    proof {
        reveal_strlit(" ");
    }
    while i < n
        invariant
            i <= n,
            s@ =~= spaces(i as nat),
        decreases n - i,
    {
        s.append(" ");
        i = i + 1;
        proof {
            reveal_strlit(" ");
            assert(s@ =~= spaces(i as nat));
        }
    }
    s
}

fn repeat_rule(n: usize) -> (r: String)
    ensures
        r@ == rule_of(n as nat),
{
    let mut s = String::new();
    let mut i: usize = 0;
    while i < n
        invariant
            i <= n,
            s@ =~= rule_of(i as nat),
        decreases n - i,
    {
        s.append("─");
        i = i + 1;
        proof {
            reveal_strlit("─");
            assert(s@ =~= rule_of(i as nat));
        }
    }
    s
}

/// Cuts a topic down to at most `max_topic_width` display columns, marking a
/// cut with a trailing ellipsis.
pub fn truncate_topic(topic: &str, max_topic_width: usize) -> (r: String)
    ensures
        r@ == spec_truncate_topic(topic@, max_topic_width as nat),
{
    let n = topic.unicode_len();
    if n > max_topic_width {
        let keep = if max_topic_width == 0 {
            0
        } else {
            max_topic_width - 1
        };
        let head = topic.substring_char(0, keep);
        let mut out = head.to_owned();
        out.append("…");
        proof {
            reveal_strlit("…");
            assert(topic@.subrange(0, keep as int) =~= topic@.take(keep as int));
            assert(out@ =~= topic@.take(keep as int).push('…'));
        }
        out
    } else {
        topic.to_owned()
    }
}

/// Lays the (already truncated) topic and the timestamp out on one line of
/// `terminal_width` columns, right-justifying the timestamp.
pub fn format_header(truncated_topic: &str, timestamp: &str, terminal_width: usize) -> (r: String)
    ensures
        r@ == spec_header(truncated_topic@, timestamp@, terminal_width as nat),
{
    let t_len = truncated_topic.unicode_len();
    let ts_len = timestamp.unicode_len();
    if t_len <= terminal_width {
        let spacer_width = if terminal_width >= t_len && terminal_width - t_len >= ts_len {
            terminal_width - t_len - ts_len
        } else {
            0
        };
        let spacer = repeat_spaces(spacer_width);
        let mut out = truncated_topic.to_owned();
        out.append(spacer.as_str());
        out.append(timestamp);
        out
    } else {
        truncated_topic.to_owned()
    }
}

/// Builds the header line and a divider of exactly the header's length for a
/// raw topic, a timestamp, and the terminal width.
pub fn build_header(topic: &str, timestamp: &str, terminal_width: usize) -> (r: (String, String))
    ensures
        r.0@ == spec_build_header(topic@, timestamp@, terminal_width as nat),
        r.1@ == rule_of(r.0@.len()),
{
    let ts_len = timestamp.unicode_len();
    let max_topic_width = if terminal_width > ts_len {
        terminal_width - ts_len - 1
    } else {
        0
    };
    let truncated = truncate_topic(topic, max_topic_width);
    let header = format_header(truncated.as_str(), timestamp, terminal_width);
    let header_len = header.as_str().unicode_len();
    let divider = repeat_rule(header_len);
    (header, divider)
}

/// Law: whenever the width leaves at least one column beside the timestamp,
/// the header spans exactly the width (so it never exceeds it), with the
/// timestamp right-justified at its end; the padding computation never goes
/// negative by construction.
pub proof fn lemma_header_fits(topic: Seq<char>, timestamp: Seq<char>, width: nat)
    requires
        width >= timestamp.len() + 1,
    ensures
        spec_build_header(topic, timestamp, width).len() == width,
        spec_build_header(topic, timestamp, width).skip(
            width - timestamp.len(),
        ) == timestamp,
{
    let max_topic = spec_max_topic_width(timestamp, width);
    let truncated = spec_truncate_topic(topic, max_topic);
    assert(max_topic == width - timestamp.len() - 1);
    if topic.len() > max_topic {
        assert(truncated.len() == (if max_topic == 0 { 0int } else { max_topic - 1 }) + 1);
    }
    assert(truncated.len() <= max_topic || truncated.len() == 1);
    let header = spec_build_header(topic, timestamp, width);
    assert(header.len() == width);
    assert(header.skip(width - timestamp.len()) =~= timestamp);
}

/// Law: a topic longer than a positive `max_topic_width` is truncated to
/// exactly `max_topic_width` characters, the last of which is the ellipsis
/// glyph.
pub proof fn lemma_truncation_exact(topic: Seq<char>, max_topic_width: nat)
    requires
        topic.len() > max_topic_width,
        max_topic_width >= 1,
    ensures
        spec_truncate_topic(topic, max_topic_width).len() == max_topic_width,
        spec_truncate_topic(topic, max_topic_width).last() == '…',
{
}

} // verus!
