//! The timeline registry, router and event sequencer.
//!
//! A [`Sender`] owns the routing state of one stream: the keys seen so far
//! with the timeline each one was assigned, the timeline the sink currently
//! has active, and the next event ordering number. Planning a message never
//! touches the state; each sink call that succeeds is reported back through
//! one of the `commit` methods, so a failed call leaves no partial
//! registration behind.

use vstd::prelude::*;

use crate::convert::{
    attrs_view, spec_event_attrs, spec_event_kind_name, spec_key_of, spec_timeline_attrs,
    spec_timeline_name, AttrVal, TimelineKey, TimelineKeyV,
};
use crate::message::DecodedMessage;
use crate::CommonConfig;

verus! {

/// Implemented by plugin configurations that embed a [`CommonConfig`].
pub trait HasCommonConfig {
    fn common_config(&self) -> &CommonConfig;
}

/// What to announce for a timeline seen for the first time.
pub struct NewTimeline {
    /// The display name of the timeline.
    pub name: String,
    /// Its attribute list, one entry per present key component.
    pub attrs: Vec<(String, AttrVal)>,
}

/// The sink work that one delivered message calls for, in order: an
/// optional switch, an optional declaration, then the event itself.
pub struct DeliveryPlan {
    /// The timeline the event belongs to.
    pub timeline: usize,
    /// Whether the sink must switch to that timeline first.
    pub switch_needed: bool,
    /// The announcement to make right after the switch, present exactly
    /// when the timeline has never been seen.
    pub declaration: Option<NewTimeline>,
    /// The key the message resolved to; handed back to
    /// [`Sender::commit_declared`] once the declaration succeeded.
    pub key: TimelineKey,
    /// The short kind name of the event.
    pub event_name: String,
    /// The ordering number the event carries.
    pub ordering: u128,
    /// The event's attribute list.
    pub event_attrs: Vec<(String, AttrVal)>,
}

/// The outcome of planning one decoded message.
pub enum MessagePlan {
    /// The decoder reported the span invalid: skip it and warn.
    SkipInvalid,
    /// The decoder filtered the message out: skip it silently.
    SkipFiltered,
    /// Deliver the message as an event.
    Deliver(DeliveryPlan),
}

/// The map that a sequence of key-to-timeline entries denotes.
pub open spec fn pairs_map(s: Seq<(TimelineKey, usize)>) -> Map<TimelineKeyV, usize>
    decreases s.len(),
{
    if s.len() == 0 {
        Map::<TimelineKeyV, usize>::empty()
    } else {
        pairs_map(s.drop_last()).insert(s.last().0@, s.last().1)
    }
}

/// Per-stream routing state.
pub struct Sender {
    /// The key-identity switches this stream was opened with.
    pub config: CommonConfig,
    /// Every key seen so far, each with the timeline it was assigned:
    /// entry `i` holds timeline `i`.
    pub known_timelines: Vec<(TimelineKey, usize)>,
    /// The timeline most recently switched to at the sink, if any.
    pub current_timeline: Option<usize>,
    /// The ordering number the next delivered event will carry.
    pub event_ordering: u128,
}

impl Sender {
    /// Well-formedness: each registered timeline is its entry's index, and
    /// no key is registered twice.
    pub open spec fn wf(self) -> bool {
        &&& forall|i: int|
            0 <= i < self.known_timelines@.len() ==> (#[trigger] self.known_timelines@[i].1) == i
        &&& forall|i: int, j: int|
            0 <= i < j < self.known_timelines@.len() ==> self.known_timelines@[i].0@
                != self.known_timelines@[j].0@
    }

    /// The key-to-timeline map registered so far.
    pub open spec fn spec_key_map(self) -> Map<TimelineKeyV, usize> {
        pairs_map(self.known_timelines@)
    }

    /// The timeline a first-seen key would be assigned.
    pub open spec fn spec_fresh_timeline(self) -> usize {
        self.known_timelines@.len() as usize
    }

    /// The active timeline, when one is set, is a registered one. This
    /// holds whenever a message is about to be planned: a still-unregistered
    /// timeline is active only between its switch and its declaration,
    /// inside one message's delivery.
    pub open spec fn spec_active_registered(self) -> bool {
        match self.current_timeline {
            Some(t) => (t as int) < self.known_timelines@.len(),
            None => true,
        }
    }

    /// Open the routing state of a fresh stream: nothing registered, no
    /// timeline active, ordering numbers starting at zero.
    pub fn new(config: CommonConfig) -> (s: Sender)
        ensures
            s.wf(),
            s.spec_key_map() == Map::<TimelineKeyV, usize>::empty(),
            s.current_timeline is None,
            s.event_ordering == 0,
            s.config == config,
    {
        Sender {
            config,
            known_timelines: Vec::new(),
            current_timeline: None,
            event_ordering: 0,
        }
    }

    fn find_timeline(&self, key: &TimelineKey) -> (r: Option<usize>)
        requires
            self.wf(),
        ensures
            match r {
                Some(h) => self.spec_key_map().contains_key(key@) && self.spec_key_map()[key@]
                    == h && (h as int) < self.known_timelines@.len(),
                None => !self.spec_key_map().contains_key(key@),
            },
    {
        let mut i: usize = 0;
        while i < self.known_timelines.len()
            invariant
                self.wf(),
                i <= self.known_timelines@.len(),
                forall|j: int| 0 <= j < i ==> self.known_timelines@[j].0@ != key@,
            decreases self.known_timelines@.len() - i,
        {
            if self.known_timelines[i].0.key_eq(key) {
                let h = self.known_timelines[i].1;
                proof {
                    lemma_pairs_map_entry(self.known_timelines@, i as int);
                    assert((h as int) == i as int);
                }
                return Some(h);
            }
            i += 1;
        }
        proof {
            lemma_pairs_map_absent(self.known_timelines@, key@);
        }
        None
    }

    /// Decide everything one decoded message calls for, without touching
    /// the state: whether it is skipped, which timeline it belongs to,
    /// whether the sink must switch, whether the timeline must first be
    /// declared, and the event's name, ordering number and attributes.
    ///
    /// A first-seen key always gets a switch: the fresh timeline cannot
    /// already be the active one, since the active one is registered.
    pub fn plan_message(&self, parsed: &DecodedMessage) -> (r: MessagePlan)
        requires
            self.wf(),
            self.spec_active_registered(),
        ensures
            (parsed matches DecodedMessage::Invalid) <==> (r matches MessagePlan::SkipInvalid),
            (parsed matches DecodedMessage::FilteredOut) <==> (r matches MessagePlan::SkipFiltered),
            (parsed matches DecodedMessage::Item(m) ==> (r matches MessagePlan::Deliver(p) && {
                let key = spec_key_of(m@, self.config);
                &&& p.key@ == key
                &&& (if self.spec_key_map().contains_key(key) {
                    p.timeline == self.spec_key_map()[key] && p.declaration is None && (
                    p.timeline as int) < self.known_timelines@.len()
                } else {
                    p.timeline == self.spec_fresh_timeline() && p.switch_needed && (
                    p.declaration matches Some(d) && d.name@ == spec_timeline_name(key)
                        && attrs_view(d.attrs@) == spec_timeline_attrs(key))
                })
                &&& p.switch_needed == (self.current_timeline != Some(p.timeline))
                &&& p.event_name@ == spec_event_kind_name(m@)
                &&& attrs_view(p.event_attrs@) == spec_event_attrs(m@)
                &&& p.ordering == self.event_ordering
            })),
    {
        let msg = match parsed {
            DecodedMessage::Item(m) => m,
            DecodedMessage::Invalid => {
                return MessagePlan::SkipInvalid;
            },
            DecodedMessage::FilteredOut => {
                return MessagePlan::SkipFiltered;
            },
        };
        let key = TimelineKey::for_message(msg, &self.config);
        let (timeline, declaration) = match self.find_timeline(&key) {
            Some(h) => (h, None),
            None => {
                let d = NewTimeline { name: key.timeline_name(), attrs: key.timeline_attrs() };
                (self.known_timelines.len(), Some(d))
            },
        };
        let switch_needed = match self.current_timeline {
            Some(c) => c != timeline,
            None => true,
        };
        let event_name = crate::convert::dlt_message_to_event_name(msg);
        let event_attrs = crate::convert::dlt_message_to_event_attrs(msg);
        MessagePlan::Deliver(
            DeliveryPlan {
                timeline,
                switch_needed,
                declaration,
                key,
                event_name,
                ordering: self.event_ordering,
                event_attrs,
            },
        )
    }

    /// Record that the sink switched to `timeline`. Call it right after a
    /// successful switch: the active timeline is then the one most
    /// recently switched to, and nothing else changes.
    pub fn commit_switched(&mut self, timeline: usize)
        ensures
            final(self).current_timeline == Some(timeline),
            final(self).known_timelines@ == old(self).known_timelines@,
            final(self).event_ordering == old(self).event_ordering,
            final(self).config == old(self).config,
    {
        self.current_timeline = Some(timeline);
    }

    /// Register `key` under `timeline` once its declaration succeeded at
    /// the sink. A declaration that failed is simply not registered, so
    /// the next message with the same key starts over as new.
    pub fn commit_declared(&mut self, key: TimelineKey, timeline: usize)
        requires
            old(self).wf(),
            !old(self).spec_key_map().contains_key(key@),
            timeline == old(self).spec_fresh_timeline(),
        ensures
            final(self).wf(),
            final(self).spec_key_map() == old(self).spec_key_map().insert(key@, timeline),
            final(self).known_timelines@.len() == old(self).known_timelines@.len() + 1,
            final(self).current_timeline == old(self).current_timeline,
            final(self).event_ordering == old(self).event_ordering,
            final(self).config == old(self).config,
    {
        proof {
            lemma_pairs_map_covers(self.known_timelines@, key@);
        }
        self.known_timelines.push((key, timeline));
        proof {
            let s = self.known_timelines@;
            let olds = old(self).known_timelines@;
            vstd::std_specs::vec::axiom_spec_len(&old(self).known_timelines);
            assert(olds.len() <= usize::MAX);
            assert(s.drop_last() =~= olds);
            assert(s.last() == (key, timeline));
            assert forall|i: int| 0 <= i < s.len() implies (#[trigger] s[i].1) == i by {
                if i < olds.len() {
                    assert(s[i] == olds[i]);
                } else {
                    assert(s[i] == (key, timeline));
                }
            }
            assert forall|a: int, b: int| 0 <= a < b < s.len() implies s[a].0@ != s[b].0@ by {
                assert(s[a] == olds[a]);
                if b < olds.len() {
                    assert(s[b] == olds[b]);
                } else {
                    assert(s[b] == (key, timeline));
                    assert(olds[a].0@ != key@);
                }
            }
        }
    }

    /// Record that the event went out: the next message's ordering number
    /// follows without a gap.
    pub fn commit_event_sent(&mut self)
        requires
            old(self).event_ordering < u128::MAX,
        ensures
            final(self).event_ordering == old(self).event_ordering + 1,
            final(self).known_timelines@ == old(self).known_timelines@,
            final(self).current_timeline == old(self).current_timeline,
            final(self).config == old(self).config,
    {
        self.event_ordering = self.event_ordering + 1;
    }
}

/// A timeline is switched to and declared exactly once, on first sight.
/// Before its first message is routed the key is unregistered, so that
/// message's plan carries a declaration, and the fresh timeline cannot be
/// the active one — whatever is active is registered — so the plan carries
/// a switch too. Once the switch and the declaration are committed, the
/// key maps to the fresh timeline and that timeline is the active one: any
/// later message with the same key finds it registered (no second
/// declaration) and already active (no switch, until some other key
/// intervenes).
pub proof fn lemma_declare_once(s0: Sender, s1: Sender, key: TimelineKeyV)
    requires
        s0.wf(),
        s0.spec_active_registered(),
        !s0.spec_key_map().contains_key(key),
        s1.spec_key_map() == s0.spec_key_map().insert(key, s0.spec_fresh_timeline()),
        s1.current_timeline == Some(s0.spec_fresh_timeline()),
    ensures
        s0.current_timeline != Some(s0.spec_fresh_timeline()),
        s1.spec_key_map().contains_key(key),
        s1.spec_key_map()[key] == s0.spec_fresh_timeline(),
        s1.current_timeline == Some(s1.spec_key_map()[key]),
{
    vstd::std_specs::vec::axiom_spec_len(&s0.known_timelines);
}

/// How many of the first `i` messages of a run were delivered, given each
/// message's disposition: `true` for delivered, `false` for skipped.
pub open spec fn spec_delivered_before(d: Seq<bool>, i: int) -> int
    decreases i,
{
    if i <= 0 {
        0
    } else {
        spec_delivered_before(d, i - 1) + (if d[i - 1] {
            1int
        } else {
            0int
        })
    }
}

proof fn lemma_delivered_before_mono(d: Seq<bool>, a: int, b: int)
    requires
        0 <= a <= b,
    ensures
        spec_delivered_before(d, a) <= spec_delivered_before(d, b),
    decreases b - a,
{
    if a < b {
        lemma_delivered_before_mono(d, a, b - 1);
    }
}

/// Ordering numbers are gapless and never repeat. A delivered message's
/// number is the count of delivered messages before it — the planning
/// counter starts at zero and each delivery's commit adds one, skipped
/// messages adding nothing. So of two delivered messages the later one
/// carries the strictly larger number, and when no delivery stands between
/// them the numbers are consecutive.
pub proof fn lemma_orderings_gapless(d: Seq<bool>, i: int, j: int)
    requires
        0 <= i < j < d.len(),
        d[i],
        d[j],
    ensures
        spec_delivered_before(d, i) < spec_delivered_before(d, j),
        (forall|k: int| i < k < j ==> !d[k]) ==> spec_delivered_before(d, j)
            == spec_delivered_before(d, i) + 1,
{
    assert(spec_delivered_before(d, i + 1) == spec_delivered_before(d, i) + 1);
    lemma_delivered_before_mono(d, i + 1, j);
    if forall|k: int| i < k < j ==> !d[k] {
        lemma_delivered_constant(d, i + 1, j);
    }
}

proof fn lemma_delivered_constant(d: Seq<bool>, a: int, b: int)
    requires
        0 <= a <= b,
        forall|k: int| a <= k < b ==> !d[k],
    ensures
        spec_delivered_before(d, b) == spec_delivered_before(d, a),
    decreases b - a,
{
    if a < b {
        assert(!d[b - 1]);
        lemma_delivered_constant(d, a, b - 1);
    }
}

proof fn lemma_pairs_map_entry(s: Seq<(TimelineKey, usize)>, i: int)
    requires
        0 <= i < s.len(),
        forall|a: int, b: int| 0 <= a < b < s.len() ==> s[a].0@ != s[b].0@,
    ensures
        pairs_map(s).contains_key(s[i].0@),
        pairs_map(s)[s[i].0@] == s[i].1,
    decreases s.len(),
{
    if i == s.len() - 1 {
    } else {
        lemma_pairs_map_entry(s.drop_last(), i);
        assert(s.drop_last()[i] == s[i]);
        assert(s[i].0@ != s[s.len() - 1].0@);
    }
}

proof fn lemma_pairs_map_absent(s: Seq<(TimelineKey, usize)>, k: TimelineKeyV)
    requires
        forall|i: int| 0 <= i < s.len() ==> (#[trigger] s[i].0@) != k,
    ensures
        !pairs_map(s).contains_key(k),
    decreases s.len(),
{
    if s.len() > 0 {
        assert forall|i: int| 0 <= i < s.drop_last().len() implies (#[trigger] s.drop_last()[i].0@)
            != k by {
            assert(s.drop_last()[i] == s[i]);
        }
        lemma_pairs_map_absent(s.drop_last(), k);
        assert(s[s.len() - 1].0@ != k);
    }
}

proof fn lemma_pairs_map_covers(s: Seq<(TimelineKey, usize)>, k: TimelineKeyV)
    requires
        !pairs_map(s).contains_key(k),
    ensures
        forall|i: int| 0 <= i < s.len() ==> (#[trigger] s[i].0@) != k,
    decreases s.len(),
{
    if s.len() > 0 {
        assert(pairs_map(s) == pairs_map(s.drop_last()).insert(s.last().0@, s.last().1));
        lemma_pairs_map_covers(s.drop_last(), k);
        assert forall|i: int| 0 <= i < s.len() implies (#[trigger] s[i].0@) != k by {
            if i < s.len() - 1 {
                assert(s.drop_last()[i] == s[i]);
            }
        }
    }
}

} // verus!
