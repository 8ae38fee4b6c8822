use vstd::prelude::*;
use crate::text::{decimal, decimal_string};

verus! {

/// The seconds between two periodic events of a voice session.
pub const TICK_SECS: u64 = 60;

/// What a subscription listens to.
#[derive(Debug, Clone, Copy, PartialEq, Eq, Structural)]
pub enum EventKind {
    /// The playing track came to its natural end.
    TrackEnd,
    /// A fixed interval of connected time passed.
    Periodic { interval_secs: u64 },
}

/// The handlers that can be bound to a voice session.
#[derive(Debug, Clone, Copy, PartialEq, Eq, Structural)]
pub enum Notifier {
    /// Names the track that ended.
    TrackEnd { channel: u64 },
    /// Counts the periodic events and reports the connected time.
    ChannelDuration { channel: u64, count: u64 },
    /// Reports that a song faded out.
    SongEnd { channel: u64 },
}

/// A handler bound to an event kind of one voice session.
#[derive(Debug, Clone, Copy, PartialEq, Eq, Structural)]
pub struct Subscription {
    pub kind: EventKind,
    pub notifier: Notifier,
}

/// An event of a voice session.
#[derive(Debug)]
pub enum VoiceEvent {
    /// The playing track ended; its title, if it was resolved.
    TrackEnded { title: Option<String> },
    /// A periodic interval passed.
    Tick,
}

/// A status message to post in a text channel.
#[derive(Debug)]
pub struct Notice {
    pub channel: u64,
    pub text: String,
}

/// The channel that a notifier posts to.
pub open spec fn channel_of(n: Notifier) -> u64 {
    match n {
        Notifier::TrackEnd { channel } => channel,
        Notifier::ChannelDuration { channel, .. } => channel,
        Notifier::SongEnd { channel } => channel,
    }
}

/// Whether a subscription of `kind` receives `ev`.
pub open spec fn listens(kind: EventKind, ev: VoiceEvent) -> bool {
    match ev {
        VoiceEvent::TrackEnded { .. } => kind == EventKind::TrackEnd,
        VoiceEvent::Tick => kind is Periodic,
    }
}

/// The title shown for a track.
pub open spec fn shown_title(title: Option<String>) -> Seq<char> {
    match title {
        Some(t) => t@,
        None => "Unknown"@,
    }
}

/// The text that `n` posts on `ev`, if it posts anything.
pub open spec fn notice_text(n: Notifier, ev: VoiceEvent) -> Option<Seq<char>> {
    match n {
        Notifier::TrackEnd { .. } => match ev {
            VoiceEvent::TrackEnded { title } => Some("Tracks ended: "@ + shown_title(title) + "."@),
            VoiceEvent::Tick => None,
        },
        Notifier::ChannelDuration { channel, count } => Some(
            "I've been in "@ + decimal(channel as nat) + " for "@ + decimal(
                next_count(count) as nat,
            ) + " minutes!"@,
        ),
        Notifier::SongEnd { .. } => Some("Song faded out completely!"@),
    }
}

/// The occurrence counter after one more periodic event.
pub open spec fn next_count(count: u64) -> u64 {
    if count < u64::MAX {
        (count + 1) as u64
    } else {
        count
    }
}

/// The notifier after it handled an event.
pub open spec fn acted(n: Notifier) -> Notifier {
    match n {
        Notifier::ChannelDuration { channel, count } => Notifier::ChannelDuration {
            channel,
            count: next_count(count),
        },
        _ => n,
    }
}

/// A notice as a channel and a text.
pub open spec fn notice_view(n: Notice) -> (u64, Seq<char>) {
    (n.channel, n.text@)
}

impl Notifier {
    /// Handles `ev`: returns what to post, if anything.
    pub fn act(&mut self, ev: &VoiceEvent) -> (r: Option<Notice>)
        ensures
            *final(self) == acted(*old(self)),
            match r {
                Some(n) => notice_text(*old(self), *ev) == Some(n.text@) && n.channel
                    == channel_of(*old(self)),
                None => notice_text(*old(self), *ev) is None,
            },
    {
        match *self {
            Notifier::TrackEnd { channel } => match ev {
                VoiceEvent::TrackEnded { title } => {
                    let mut text = String::from_str("Tracks ended: ");
                    match title {
                        Some(t) => text.append(t.as_str()),
                        None => text.append("Unknown"),
                    }
                    text.append(".");
                    Some(Notice { channel, text })
                },
                VoiceEvent::Tick => None,
            },
            Notifier::ChannelDuration { channel, count } => {
                let next = if count < u64::MAX {
                    count + 1
                } else {
                    count
                };
                *self = Notifier::ChannelDuration { channel, count: next };
                let mut text = String::from_str("I've been in ");
                let c = decimal_string(channel);
                text.append(c.as_str());
                text.append(" for ");
                let m = decimal_string(next);
                text.append(m.as_str());
                text.append(" minutes!");
                Some(Notice { channel, text })
            },
            Notifier::SongEnd { channel } => Some(
                Notice { channel, text: String::from_str("Song faded out completely!") },
            ),
        }
    }
}

/// The notices that `subs`, in order, post on `ev`.
pub open spec fn notices(subs: Seq<Subscription>, ev: VoiceEvent) -> Seq<(u64, Seq<char>)>
    decreases subs.len(),
{
    if subs.len() == 0 {
        Seq::empty()
    } else {
        let before = notices(subs.drop_last(), ev);
        let s = subs.last();
        if listens(s.kind, ev) && notice_text(s.notifier, ev) is Some {
            before.push((channel_of(s.notifier), notice_text(s.notifier, ev)->Some_0))
        } else {
            before
        }
    }
}

/// A subscription after `ev` was handed to the subscriptions.
pub open spec fn delivered(s: Subscription, ev: VoiceEvent) -> Subscription {
    if listens(s.kind, ev) {
        Subscription { notifier: acted(s.notifier), ..s }
    } else {
        s
    }
}

fn listens_exec(kind: EventKind, ev: &VoiceEvent) -> (r: bool)
    ensures
        r == listens(kind, *ev),
{
    match ev {
        VoiceEvent::TrackEnded { .. } => match kind {
            EventKind::TrackEnd => true,
            _ => false,
        },
        VoiceEvent::Tick => match kind {
            EventKind::Periodic { .. } => true,
            _ => false,
        },
    }
}

/// Hands `ev` to every subscription that listens to it, in order, and
/// collects what they post.
pub fn notify_all(subs: &mut Vec<Subscription>, ev: &VoiceEvent) -> (r: Vec<Notice>)
    ensures
        final(subs)@ == old(subs)@.map_values(|s: Subscription| delivered(s, *ev)),
        r@.map_values(|n: Notice| notice_view(n)) == notices(old(subs)@, *ev),
{
    let ghost orig = subs@;
    let mut out: Vec<Notice> = Vec::new();
    let mut i: usize = 0;
    while i < subs.len()
        invariant
            subs@.len() == orig.len(),
            i <= orig.len(),
            forall|j: int| 0 <= j < i ==> subs@[j] == delivered(#[trigger] orig[j], *ev),
            forall|j: int| i <= j < orig.len() ==> subs@[j] == orig[j],
            out@.map_values(|n: Notice| notice_view(n)) == notices(orig.subrange(0, i as int), *ev),
        decreases orig.len() - i,
    {
        let s = subs[i];
        let ghost pre = out@;
        assert(orig.subrange(0, i + 1).drop_last() == orig.subrange(0, i as int));
        assert(orig.subrange(0, i + 1).last() == s);
        if listens_exec(s.kind, ev) {
            let mut n = s.notifier;
            let posted = n.act(ev);
            subs.set(i, Subscription { kind: s.kind, notifier: n });
            match posted {
                Some(p) => {
                    out.push(p);
                    assert(out@.map_values(|n: Notice| notice_view(n)) == pre.map_values(
                        |n: Notice| notice_view(n),
                    ).push(notice_view(out@.last())));
                },
                None => {},
            }
        }
        i = i + 1;
    }
    assert(orig.subrange(0, orig.len() as int) == orig);
    assert(subs@ == orig.map_values(|s: Subscription| delivered(s, *ev)));
    out
}

} // verus!
