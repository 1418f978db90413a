//! Session orchestration logic.
//!
//! The asynchronous transport work (connecting, subscribing, publishing,
//! pumping the event loop) happens outside this library; what is decided
//! here is pure: how a received event is handled (decode, filter, render or
//! skip), how a comma-separated topic list is split, what a publish to each
//! topic prints, and which phases a session moves through.

use vstd::prelude::*;

verus! {

use vstd::string::StrSliceExecFns;
use vstd::string::StringExecFns;
use crate::filter::TopicFilter;
use crate::filter::spec_passes;
use crate::payload::format_payload;
use crate::payload::spec_format_payload;
use crate::render::format_mqtt_log_entry;
use crate::render::is_log_block;

/// Whether a byte sequence is valid UTF-8; a function of the bytes alone.
pub uninterp spec fn utf8_decodes(bytes: Seq<u8>) -> bool;

/// The text that a valid UTF-8 byte sequence decodes to; a function of the
/// bytes alone.
pub uninterp spec fn utf8_chars(bytes: Seq<u8>) -> Seq<char>;

/// Relies on `String::from_utf8`: success, and the decoded text on success,
/// depend on the bytes alone.
#[verifier::external_body]
fn decode_utf8(bytes: Vec<u8>) -> (r: Option<String>)
    ensures
        r is Some <==> utf8_decodes(bytes@),
        r matches Some(s) ==> s@ == utf8_chars(bytes@),
{
    String::from_utf8(bytes).ok()
}

/// One event pulled from the transport's stream: a publish carrying a topic
/// and a raw payload, or any other packet type.
pub enum BusEvent {
    Publish { topic: String, payload: Vec<u8> },
    Other,
}

/// What the receive loop does with one event: nothing, a side-channel
/// diagnostic for an undecodable payload, or printing a rendered entry.
pub enum ReceiveAction {
    Skip,
    ReportInvalidUtf8,
    Render { entry: String },
}

/// Decides, for one transport event, what the receive loop prints: non-publish
/// events are skipped silently, a payload that is not UTF-8 is reported on
/// the side channel, a topic the filter rejects is skipped, and anything
/// else is rendered. No outcome ever stops the loop.
pub fn handle_event(filter: &TopicFilter, event: BusEvent) -> (r: ReceiveAction)
    ensures
        match event {
            BusEvent::Other => r is Skip,
            BusEvent::Publish { topic, payload } => {
                if !utf8_decodes(payload@) {
                    r is ReportInvalidUtf8
                } else if !spec_passes(
                    topic@,
                    filter.inclusion_pattern(),
                    filter.exclusion_pattern(),
                ) {
                    r is Skip
                } else {
                    r matches ReceiveAction::Render { entry } && is_log_block(
                        topic@,
                        utf8_chars(payload@),
                        entry@,
                    )
                }
            },
        },
{
    match event {
        BusEvent::Other => ReceiveAction::Skip,
        BusEvent::Publish { topic, payload } => {
            match decode_utf8(payload) {
                None => ReceiveAction::ReportInvalidUtf8,
                Some(text) => {
                    if filter.passes(topic.as_str()) {
                        ReceiveAction::Render {
                            entry: format_mqtt_log_entry(topic.as_str(), text.as_str()),
                        }
                    } else {
                        ReceiveAction::Skip
                    }
                },
            }
        },
    }
}

/// The index of the first comma in `s`, or `s.len()` when there is none.
pub open spec fn first_comma(s: Seq<char>) -> int
    decreases s.len(),
{
    if s.len() == 0 {
        0
    } else if s[0] == ',' {
        0
    } else {
        1 + first_comma(s.skip(1))
    }
}

pub proof fn lemma_first_comma(s: Seq<char>)
    ensures
        0 <= first_comma(s) <= s.len(),
        forall|j: int| 0 <= j < first_comma(s) ==> s[j] != ',',
        first_comma(s) < s.len() ==> s[first_comma(s)] == ',',
    decreases s.len(),
{
    if s.len() == 0 {
    } else if s[0] == ',' {
    } else {
        lemma_first_comma(s.skip(1));
        assert forall|j: int| 0 <= j < first_comma(s) implies s[j] != ',' by {
            if j > 0 {
                assert(s.skip(1)[j - 1] != ',');
            }
        }
        if first_comma(s) < s.len() {
            assert(s[first_comma(s)] == s.skip(1)[first_comma(s) - 1]);
        }
    }
}

/// The comma-separated pieces of `s`, commas removed, empty pieces kept.
pub open spec fn spec_split_commas(s: Seq<char>) -> Seq<Seq<char>>
    decreases s.len(),
{
    let i = first_comma(s);
    if 0 <= i < s.len() {
        seq![s.take(i)] + spec_split_commas(s.skip(i + 1))
    } else {
        seq![s]
    }
}

proof fn lemma_first_comma_is(s: Seq<char>, k: int)
    requires
        0 <= k <= s.len(),
        forall|j: int| 0 <= j < k ==> s[j] != ',',
        k < s.len() ==> s[k] == ',',
    ensures
        first_comma(s) == k,
{
    lemma_first_comma(s);
    let fc = first_comma(s);
    if fc < k {
        assert(s[fc] == ',');
        assert(false);
    }
    if fc > k {
        assert(s[k] != ',');
        assert(false);
    }
}

/// Splits a comma-separated topic list into its pieces.
pub fn split_topics(s: &str) -> (r: Vec<String>)
    ensures
        r.deep_view() == spec_split_commas(s@),
{
    let n = s.unicode_len();
    let mut out: Vec<String> = Vec::new();
    let mut start: usize = 0;
    let mut i: usize = 0;
    proof {
        assert(s@.skip(0) =~= s@);
        assert(out.deep_view() =~~= Seq::<Seq<char>>::empty());
        assert(out.deep_view() + spec_split_commas(s@) =~~= spec_split_commas(s@));
    }
    while i < n
        invariant
            start <= i <= n,
            n == s@.len(),
            forall|j: int| start <= j < i ==> s@[j] != ',',
            spec_split_commas(s@) =~~= out.deep_view() + spec_split_commas(
                s@.skip(start as int),
            ),
        decreases n - i,
    {
        let c = s.get_char(i);
        if c == ',' {
            let piece = s.substring_char(start, i).to_owned();
            proof {
                let t = s@.skip(start as int);
                assert forall|j: int| 0 <= j < i - start implies t[j] != ',' by {
                    assert(t[j] == s@[start + j]);
                }
                assert(t[i - start] == s@[i as int]);
                lemma_first_comma_is(t, i - start);
                assert(t.take(i - start) =~= s@.subrange(start as int, i as int));
                assert(t.skip(i - start + 1) =~= s@.skip(i + 1));
                assert(spec_split_commas(t) =~~= seq![s@.subrange(start as int, i as int)]
                    + spec_split_commas(s@.skip(i + 1)));
            }
            let ghost prev = out.deep_view();
            out.push(piece);
            proof {
                assert(out.deep_view() =~~= prev.push(piece@));
                assert(spec_split_commas(s@) =~~= out.deep_view() + spec_split_commas(
                    s@.skip(i + 1),
                ));
            }
            start = i + 1;
        }
        i = i + 1;
    }
    let piece = s.substring_char(start, n).to_owned();
    proof {
        let t = s@.skip(start as int);
        assert forall|j: int| 0 <= j < t.len() implies t[j] != ',' by {
            assert(t[j] == s@[start + j]);
        }
        lemma_first_comma_is(t, t.len() as int);
        assert(t =~= s@.subrange(start as int, n as int));
        assert(spec_split_commas(t) =~~= seq![t]);
    }
    let ghost prev = out.deep_view();
    out.push(piece);
    proof {
        assert(out.deep_view() =~~= prev.push(piece@));
        assert(out.deep_view() =~~= spec_split_commas(s@));
    }
    out
}

/// The confirmation line printed after a publish to `topic`.
pub open spec fn confirmation_of(topic: Seq<char>) -> Seq<char> {
    "Published to topic: "@ + topic
}

/// What one publish does: the transport call's topic, the confirmation line,
/// and the local preview of the message.
pub struct PublishAction {
    pub topic: String,
    pub confirmation: String,
    pub preview: String,
}

/// Plans the publish workflow for a comma-separated topic list: one action
/// per topic, in order, each echoing the same formatted preview of the
/// message.
pub fn plan_publishes(topics: &str, message: &str) -> (r: Vec<PublishAction>)
    ensures
        r@.len() == spec_split_commas(topics@).len(),
        forall|k: int|
            0 <= k < r@.len() ==> {
                &&& (#[trigger] r@[k]).topic@ == spec_split_commas(topics@)[k]
                &&& r@[k].confirmation@ == confirmation_of(spec_split_commas(topics@)[k])
                &&& r@[k].preview@ == spec_format_payload(message@)
            },
{
    let parts = split_topics(topics);
    let mut out: Vec<PublishAction> = Vec::new();
    let mut i: usize = 0;
    while i < parts.len()
        invariant
            i <= parts.len(),
            parts.deep_view() == spec_split_commas(topics@),
            out@.len() == i,
            forall|k: int|
                0 <= k < i ==> {
                    &&& (#[trigger] out@[k]).topic@ == spec_split_commas(topics@)[k]
                    &&& out@[k].confirmation@ == confirmation_of(spec_split_commas(topics@)[k])
                    &&& out@[k].preview@ == spec_format_payload(message@)
                },
        decreases parts.len() - i,
    {
        let topic = parts[i].clone();
        let mut confirmation = String::from_str("Published to topic: ");
        confirmation.append(topic.as_str());
        let preview = format_payload(message);
        proof {
            assert(parts.deep_view()[i as int] == parts@[i as int]@);
        }
        out.push(PublishAction { topic, confirmation, preview });
        i = i + 1;
    }
    out
}

/// The phases a session moves through, in order.
#[derive(Clone, Copy, Debug, PartialEq, Eq, Structural)]
pub enum SessionPhase {
    Connecting,
    Active,
    Draining,
    Terminated,
}

/// The session's side of the orchestration: the current phase and the set of
/// topics subscribed so far. The topic set changes only through
/// `record_subscription` and `terminate`, and the phase only moves forward.
pub struct SessionState {
    phase: SessionPhase,
    topics: Vec<String>,
}

impl SessionState {
    pub closed spec fn phase(&self) -> SessionPhase {
        self.phase
    }

    pub closed spec fn topics_view(&self) -> Seq<Seq<char>> {
        self.topics.deep_view()
    }

    /// The phase the session is in.
    pub fn current_phase(&self) -> (r: SessionPhase)
        ensures
            r == self.phase(),
    {
        self.phase
    }

    /// A fresh session, about to connect, with no subscriptions.
    pub fn new() -> (r: SessionState)
        ensures
            r.phase() is Connecting,
            r.topics_view() == Seq::<Seq<char>>::empty(),
    {
        let r = SessionState { phase: SessionPhase::Connecting, topics: Vec::new() };
        proof {
            assert(r.topics_view() =~~= Seq::<Seq<char>>::empty());
        }
        r
    }

    /// The transport connection is up: the session becomes active.
    pub fn connected(&mut self)
        requires
            old(self).phase() is Connecting,
        ensures
            final(self).phase() is Active,
            final(self).topics_view() == old(self).topics_view(),
    {
        self.phase = SessionPhase::Active;
    }

    /// A subscribe call succeeded: the topic joins the active set.
    pub fn record_subscription(&mut self, topic: String)
        requires
            old(self).phase() is Active,
        ensures
            final(self).phase() is Active,
            final(self).topics_view() == old(self).topics_view().push(topic@),
    {
        let ghost prev = self.topics.deep_view();
        self.topics.push(topic);
        proof {
            assert(self.topics.deep_view() =~~= prev.push(self.topics@[prev.len() as int]@));
        }
    }

    /// A shutdown signal arrived: the session starts draining; the topics to
    /// unsubscribe are still known.
    pub fn begin_drain(&mut self)
        requires
            old(self).phase() is Active,
        ensures
            final(self).phase() is Draining,
            final(self).topics_view() == old(self).topics_view(),
    {
        self.phase = SessionPhase::Draining;
    }

    /// The topics subscribed so far, in subscription order; while draining,
    /// the list to unsubscribe.
    pub fn subscribed_topics(&self) -> (r: &Vec<String>)
        ensures
            r.deep_view() == self.topics_view(),
    {
        &self.topics
    }

    /// Every topic has been unsubscribed: the session ends.
    pub fn terminate(&mut self)
        requires
            old(self).phase() is Draining,
        ensures
            final(self).phase() is Terminated,
            final(self).topics_view() == Seq::<Seq<char>>::empty(),
    {
        self.phase = SessionPhase::Terminated;
        self.topics = Vec::new();
        proof {
            assert(self.topics.deep_view() =~~= Seq::<Seq<char>>::empty());
        }
    }
}

} // verus!
