use vstd::prelude::*;
use std::collections::HashMap;
use crate::error::Error;
use crate::notifier::{
    notices, notify_all, delivered, notice_view, EventKind, Notice, Notifier, Subscription,
    VoiceEvent, TICK_SECS,
};
use crate::track::{head, seek_refusal, seeked, skip_refusal, PlaybackQueue, Track};

verus! {

broadcast use vstd::std_specs::hash::group_hash_axioms;

/// The voice channel a session connects to, and its bitrate.
#[derive(Debug, Clone, Copy, PartialEq, Eq, Structural)]
pub struct JoinTarget {
    pub channel: u64,
    pub bitrate: u32,
}

/// What the guild knows of a channel.
#[derive(Debug, Clone, Copy, PartialEq, Eq, Structural)]
pub struct ChannelInfo {
    /// Whether it is a channel of the guild (not a private or group channel).
    pub in_guild: bool,
    /// The bitrate, which only voice channels have.
    pub bitrate: Option<u32>,
}

/// Where a join goes: the voice channel of the member who asked, if it
/// can be found and is a voice channel of the guild.
pub open spec fn join_target_of(
    member_channel: Option<u64>,
    info: Option<ChannelInfo>,
) -> Result<JoinTarget, Error> {
    match member_channel {
        None => Err(Error::NotInVoiceChannel),
        Some(channel) => match info {
            None => Err(Error::Unknown),
            Some(i) => if i.in_guild && i.bitrate is Some {
                Ok(JoinTarget { channel, bitrate: i.bitrate->Some_0 })
            } else {
                Err(Error::NotInVoiceChannel)
            },
        },
    }
}

/// Finds where a join goes. `member_channel` is the voice channel that the
/// member who asked is in, and `info` what the guild knows of that channel.
pub fn resolve_join_target(member_channel: Option<u64>, info: Option<ChannelInfo>) -> (r: Result<
    JoinTarget,
    Error,
>)
    ensures
        r == join_target_of(member_channel, info),
{
    match member_channel {
        None => Err(Error::NotInVoiceChannel),
        Some(channel) => match info {
            None => Err(Error::Unknown),
            Some(i) => {
                if i.in_guild {
                    match i.bitrate {
                        Some(bitrate) => Ok(JoinTarget { channel, bitrate }),
                        None => Err(Error::NotInVoiceChannel),
                    }
                } else {
                    Err(Error::NotInVoiceChannel)
                }
            },
        },
    }
}

/// A voice session as plain values.
pub struct SessionView {
    pub guild: u64,
    pub channel: u64,
    pub text_channel: u64,
    pub muted: bool,
    pub deafened: bool,
    pub bitrate: u32,
    pub queue: Seq<Track>,
    pub subscriptions: Seq<Subscription>,
}

/// The bot's connection to one voice channel of one guild.
pub struct VoiceSession {
    guild: u64,
    channel: u64,
    text_channel: u64,
    muted: bool,
    deafened: bool,
    bitrate: u32,
    queue: PlaybackQueue,
    subscriptions: Vec<Subscription>,
}

impl View for VoiceSession {
    type V = SessionView;

    closed spec fn view(&self) -> SessionView {
        SessionView {
            guild: self.guild,
            channel: self.channel,
            text_channel: self.text_channel,
            muted: self.muted,
            deafened: self.deafened,
            bitrate: self.bitrate,
            queue: self.queue@,
            subscriptions: self.subscriptions@,
        }
    }
}

impl VoiceSession {
    pub fn guild(&self) -> (r: u64)
        ensures
            r == self@.guild,
    {
        self.guild
    }

    pub fn channel(&self) -> (r: u64)
        ensures
            r == self@.channel,
    {
        self.channel
    }

    pub fn text_channel(&self) -> (r: u64)
        ensures
            r == self@.text_channel,
    {
        self.text_channel
    }

    pub fn is_muted(&self) -> (r: bool)
        ensures
            r == self@.muted,
    {
        self.muted
    }

    pub fn is_deafened(&self) -> (r: bool)
        ensures
            r == self@.deafened,
    {
        self.deafened
    }

    pub fn bitrate(&self) -> (r: u32)
        ensures
            r == self@.bitrate,
    {
        self.bitrate
    }

    pub fn queue(&self) -> (r: &PlaybackQueue)
        ensures
            r@ == self@.queue,
    {
        &self.queue
    }

    pub fn subscription_count(&self) -> (r: usize)
        ensures
            r == self@.subscriptions.len(),
    {
        self.subscriptions.len()
    }
}

/// The subscriptions a session starts with: the end of each track, and a
/// periodic event every minute, both reported to `text_channel`.
pub open spec fn initial_subscriptions(text_channel: u64) -> Seq<Subscription> {
    seq![
        Subscription { kind: EventKind::TrackEnd, notifier: Notifier::TrackEnd { channel: text_channel } },
        Subscription {
            kind: EventKind::Periodic { interval_secs: TICK_SECS },
            notifier: Notifier::ChannelDuration { channel: text_channel, count: 0 },
        },
    ]
}

/// The session that a join creates.
pub open spec fn fresh_session(guild: u64, target: JoinTarget, text_channel: u64) -> SessionView {
    SessionView {
        guild,
        channel: target.channel,
        text_channel,
        muted: false,
        deafened: false,
        bitrate: target.bitrate,
        queue: Seq::empty(),
        subscriptions: initial_subscriptions(text_channel),
    }
}

/// The sessions of all guilds, keyed by guild.
pub type Sessions = Map<u64, SessionView>;

/// A join: nothing changes where the guild has a session already; otherwise
/// the session is made once the transport has connected.
pub open spec fn join_model(
    m: Sessions,
    guild: u64,
    target: JoinTarget,
    text_channel: u64,
    transport: Result<(), String>,
) -> (Sessions, Result<(), Error>) {
    if m.contains_key(guild) {
        (m, Ok(()))
    } else {
        match transport {
            Err(t) => (m, Err(Error::Other(t))),
            Ok(_) => (m.insert(guild, fresh_session(guild, target, text_channel)), Ok(())),
        }
    }
}

/// A leave: the session goes, and its subscriptions and queue with it.
pub open spec fn leave_model(m: Sessions, guild: u64, transport: Result<(), String>) -> (
    Sessions,
    Result<(), Error>,
) {
    if !m.contains_key(guild) {
        (m, Err(Error::NotInVoiceChannel))
    } else {
        match transport {
            Err(t) => (m, Err(Error::Other(t))),
            Ok(_) => (m.remove(guild), Ok(())),
        }
    }
}

/// Muting or unmuting. Muting a muted session is refused; unmuting one that
/// is not muted is passed on to the transport like any other request.
pub open spec fn mute_model(m: Sessions, guild: u64, on: bool, transport: Result<(), String>) -> (
    Sessions,
    Result<(), Error>,
) {
    if !m.contains_key(guild) {
        (m, Err(Error::NotInVoiceChannel))
    } else if on && m[guild].muted {
        (m, Err(Error::AlreadyMuted))
    } else {
        match transport {
            Err(t) => (m, Err(Error::Other(t))),
            Ok(_) => (m.insert(guild, SessionView { muted: on, ..m[guild] }), Ok(())),
        }
    }
}

/// Deafening or undeafening, with the same rule as muting.
pub open spec fn deafen_model(
    m: Sessions,
    guild: u64,
    on: bool,
    transport: Result<(), String>,
) -> (Sessions, Result<(), Error>) {
    if !m.contains_key(guild) {
        (m, Err(Error::NotInVoiceChannel))
    } else if on && m[guild].deafened {
        (m, Err(Error::AlreadyDeafened))
    } else {
        match transport {
            Err(t) => (m, Err(Error::Other(t))),
            Ok(_) => (m.insert(guild, SessionView { deafened: on, ..m[guild] }), Ok(())),
        }
    }
}

/// The sessions with the queue of `guild` replaced.
pub open spec fn with_queue(m: Sessions, guild: u64, q: Seq<Track>) -> Sessions {
    m.insert(guild, SessionView { queue: q, ..m[guild] })
}

/// Appending a track to the queue of a guild.
pub open spec fn enqueue_model(m: Sessions, guild: u64, track: Track) -> (Sessions, Result<(), Error>) {
    if !m.contains_key(guild) {
        (m, Err(Error::NotInVoiceChannel))
    } else {
        (with_queue(m, guild, m[guild].queue.push(track)), Ok(()))
    }
}

/// Skipping the playing track of a guild.
pub open spec fn skip_model(m: Sessions, guild: u64, transport: Result<(), String>) -> (
    Sessions,
    Result<(), Error>,
) {
    if !m.contains_key(guild) {
        (m, Err(Error::NotInVoiceChannel))
    } else {
        match skip_refusal(m[guild].queue) {
            Some(e) => (m, Err(e)),
            None => match transport {
                Err(t) => (m, Err(Error::Other(t))),
                Ok(_) => (with_queue(m, guild, m[guild].queue.drop_first()), Ok(())),
            },
        }
    }
}

/// Clearing the queue of a guild.
pub open spec fn stop_model(m: Sessions, guild: u64) -> (Sessions, Result<(), Error>) {
    if !m.contains_key(guild) {
        (m, Err(Error::NotInVoiceChannel))
    } else {
        (with_queue(m, guild, Seq::empty()), Ok(()))
    }
}

/// Moving the playing track of a guild to `secs` seconds.
pub open spec fn seek_model(m: Sessions, guild: u64, secs: u64, transport: Result<(), String>) -> (
    Sessions,
    Result<(), Error>,
) {
    if !m.contains_key(guild) {
        (m, Err(Error::NotInVoiceChannel))
    } else {
        match seek_refusal(m[guild].queue) {
            Some(e) => (m, Err(e)),
            None => match transport {
                Err(t) => (m, Err(Error::Other(t))),
                Ok(_) => (with_queue(m, guild, seeked(m[guild].queue, secs)), Ok(())),
            },
        }
    }
}

/// How many event subscriptions are live for a guild.
pub open spec fn live_subscriptions(m: Sessions, guild: u64) -> nat {
    if m.contains_key(guild) {
        m[guild].subscriptions.len()
    } else {
        0
    }
}

/// The per-guild voice sessions. Each guild has at most one.
pub struct Registry {
    sessions: HashMap<u64, VoiceSession>,
}

impl View for Registry {
    type V = Sessions;

    closed spec fn view(&self) -> Sessions {
        self.sessions@.map_values(|s: VoiceSession| s@)
    }
}

impl Registry {
    /// A registry with no session.
    pub fn new() -> (r: Registry)
        ensures
            r@ == Map::<u64, SessionView>::empty(),
    {
        let r = Registry { sessions: HashMap::new() };
        assert(r@ =~= Map::<u64, SessionView>::empty());
        r
    }

    /// The session of `guild`, if there is one. Never creates one.
    pub fn get(&self, guild: u64) -> (r: Option<&VoiceSession>)
        ensures
            match r {
                Some(s) => self@.contains_key(guild) && self@[guild] == s@,
                None => !self@.contains_key(guild),
            },
    {
        self.sessions.get(&guild)
    }

    /// Takes the session of `guild` out of the map, to change it.
    fn take(&mut self, guild: u64) -> (r: Option<VoiceSession>)
        ensures
            match r {
                Some(s) => old(self)@.contains_key(guild) && old(self)@[guild] == s@
                    && final(self)@ == old(self)@.remove(guild),
                None => !old(self)@.contains_key(guild) && final(self)@ == old(self)@,
            },
    {
        let r = self.sessions.remove(&guild);
        assert(self@ =~= old(self)@.remove(guild));
        r
    }

    /// Puts a session back under `guild`.
    fn put(&mut self, guild: u64, s: VoiceSession)
        ensures
            final(self)@ == old(self)@.insert(guild, s@),
    {
        self.sessions.insert(guild, s);
        assert(self@ =~= old(self)@.insert(guild, s@));
    }

    /// Joins `target` in `guild`, reporting session events to `text_channel`.
    /// `transport` is what the voice transport answered when asked to connect.
    pub fn join(
        &mut self,
        guild: u64,
        target: JoinTarget,
        text_channel: u64,
        transport: Result<(), String>,
    ) -> (r: Result<(), Error>)
        ensures
            (final(self)@, r) == join_model(old(self)@, guild, target, text_channel, transport),
    {
        if self.sessions.contains_key(&guild) {
            return Ok(());
        }
        match transport {
            Err(t) => Err(Error::Other(t)),
            Ok(_) => {
                let mut subscriptions: Vec<Subscription> = Vec::new();
                subscriptions.push(
                    Subscription {
                        kind: EventKind::TrackEnd,
                        notifier: Notifier::TrackEnd { channel: text_channel },
                    },
                );
                subscriptions.push(
                    Subscription {
                        kind: EventKind::Periodic { interval_secs: TICK_SECS },
                        notifier: Notifier::ChannelDuration { channel: text_channel, count: 0 },
                    },
                );
                assert(subscriptions@ =~= initial_subscriptions(text_channel));
                let s = VoiceSession {
                    guild,
                    channel: target.channel,
                    text_channel,
                    muted: false,
                    deafened: false,
                    bitrate: target.bitrate,
                    queue: PlaybackQueue::new(),
                    subscriptions,
                };
                assert(s@ == fresh_session(guild, target, text_channel));
                self.put(guild, s);
                Ok(())
            },
        }
    }

    /// Leaves the voice channel of `guild`. `transport` is what the voice
    /// transport answered when asked to disconnect.
    pub fn leave(&mut self, guild: u64, transport: Result<(), String>) -> (r: Result<(), Error>)
        ensures
            (final(self)@, r) == leave_model(old(self)@, guild, transport),
    {
        if !self.sessions.contains_key(&guild) {
            return Err(Error::NotInVoiceChannel);
        }
        match transport {
            Err(t) => Err(Error::Other(t)),
            Ok(_) => {
                self.take(guild);
                Ok(())
            },
        }
    }

    /// Mutes (`on`) or unmutes the bot in `guild`. `transport` is what the
    /// voice transport answered when asked to.
    pub fn set_mute(&mut self, guild: u64, on: bool, transport: Result<(), String>) -> (r: Result<
        (),
        Error,
    >)
        ensures
            (final(self)@, r) == mute_model(old(self)@, guild, on, transport),
    {
        match self.take(guild) {
            None => Err(Error::NotInVoiceChannel),
            Some(mut s) => {
                if on && s.muted {
                    self.put(guild, s);
                    assert(self@ =~= old(self)@);
                    return Err(Error::AlreadyMuted);
                }
                match transport {
                    Err(t) => {
                        self.put(guild, s);
                        assert(self@ =~= old(self)@);
                        Err(Error::Other(t))
                    },
                    Ok(_) => {
                        s.muted = on;
                        self.put(guild, s);
                        assert(self@ =~= old(self)@.insert(
                            guild,
                            SessionView { muted: on, ..old(self)@[guild] },
                        ));
                        Ok(())
                    },
                }
            },
        }
    }

    /// Deafens (`on`) or undeafens the bot in `guild`. `transport` is what
    /// the voice transport answered when asked to.
    pub fn set_deafen(&mut self, guild: u64, on: bool, transport: Result<(), String>) -> (r: Result<
        (),
        Error,
    >)
        ensures
            (final(self)@, r) == deafen_model(old(self)@, guild, on, transport),
    {
        match self.take(guild) {
            None => Err(Error::NotInVoiceChannel),
            Some(mut s) => {
                if on && s.deafened {
                    self.put(guild, s);
                    assert(self@ =~= old(self)@);
                    return Err(Error::AlreadyDeafened);
                }
                match transport {
                    Err(t) => {
                        self.put(guild, s);
                        assert(self@ =~= old(self)@);
                        Err(Error::Other(t))
                    },
                    Ok(_) => {
                        s.deafened = on;
                        self.put(guild, s);
                        assert(self@ =~= old(self)@.insert(
                            guild,
                            SessionView { deafened: on, ..old(self)@[guild] },
                        ));
                        Ok(())
                    },
                }
            },
        }
    }

    /// The track playing in `guild`, if any.
    pub fn current(&self, guild: u64) -> (r: Option<&Track>)
        ensures
            match r {
                Some(t) => self@.contains_key(guild) && head(self@[guild].queue) == Some(*t),
                None => !self@.contains_key(guild) || head(self@[guild].queue) is None,
            },
    {
        match self.sessions.get(&guild) {
            None => None,
            Some(s) => s.queue.current(),
        }
    }

    /// Appends `track` to the queue of `guild`; on an empty queue it starts
    /// playing at once.
    pub fn enqueue(&mut self, guild: u64, track: Track) -> (r: Result<(), Error>)
        ensures
            (final(self)@, r) == enqueue_model(old(self)@, guild, track),
    {
        match self.take(guild) {
            None => Err(Error::NotInVoiceChannel),
            Some(mut s) => {
                s.queue.enqueue(track);
                self.put(guild, s);
                assert(self@ =~= with_queue(old(self)@, guild, old(self)@[guild].queue.push(track)));
                Ok(())
            },
        }
    }

    /// Skips the playing track of `guild`. `transport` is what the voice
    /// transport answered when told to stop that track.
    pub fn skip(&mut self, guild: u64, transport: Result<(), String>) -> (r: Result<(), Error>)
        ensures
            (final(self)@, r) == skip_model(old(self)@, guild, transport),
    {
        match self.take(guild) {
            None => Err(Error::NotInVoiceChannel),
            Some(mut s) => {
                let r = s.queue.skip(transport);
                self.put(guild, s);
                if r.is_ok() {
                    assert(self@ =~= with_queue(
                        old(self)@,
                        guild,
                        old(self)@[guild].queue.drop_first(),
                    ));
                } else {
                    assert(self@ =~= old(self)@);
                }
                r
            },
        }
    }

    /// Clears the queue of `guild` and halts playback.
    pub fn stop(&mut self, guild: u64) -> (r: Result<(), Error>)
        ensures
            (final(self)@, r) == stop_model(old(self)@, guild),
    {
        match self.take(guild) {
            None => Err(Error::NotInVoiceChannel),
            Some(mut s) => {
                s.queue.stop();
                self.put(guild, s);
                assert(self@ =~= with_queue(old(self)@, guild, Seq::empty()));
                Ok(())
            },
        }
    }

    /// Moves the playing track of `guild` to `secs` seconds. `transport` is
    /// what the voice transport answered when told to seek.
    pub fn seek(&mut self, guild: u64, secs: u64, transport: Result<(), String>) -> (r: Result<
        (),
        Error,
    >)
        ensures
            (final(self)@, r) == seek_model(old(self)@, guild, secs, transport),
    {
        match self.take(guild) {
            None => Err(Error::NotInVoiceChannel),
            Some(mut s) => {
                let r = s.queue.seek(secs, transport);
                self.put(guild, s);
                if r.is_ok() {
                    assert(self@ =~= with_queue(
                        old(self)@,
                        guild,
                        seeked(old(self)@[guild].queue, secs),
                    ));
                } else {
                    assert(self@ =~= old(self)@);
                }
                r
            },
        }
    }

    /// The playing track of `guild` came to its natural end: it leaves the
    /// queue, the next one plays, and the session's subscriptions hear of it.
    /// Returns what they post.
    pub fn track_finished(&mut self, guild: u64) -> (r: Vec<Notice>)
        ensures
            !old(self)@.contains_key(guild) || old(self)@[guild].queue.len() == 0
                ==> final(self)@ == old(self)@ && r@.len() == 0,
            old(self)@.contains_key(guild) && old(self)@[guild].queue.len() > 0 ==> {
                let s = old(self)@[guild];
                let ev = VoiceEvent::TrackEnded { title: s.queue[0].title };
                &&& final(self)@ == old(self)@.insert(
                    guild,
                    SessionView {
                        queue: s.queue.drop_first(),
                        subscriptions: s.subscriptions.map_values(
                            |x: Subscription| delivered(x, ev),
                        ),
                        ..s
                    },
                )
                &&& r@.map_values(|n: Notice| notice_view(n)) == notices(s.subscriptions, ev)
            },
    {
        match self.take(guild) {
            None => Vec::new(),
            Some(mut s) => {
                match s.queue.finish_current() {
                    None => {
                        self.put(guild, s);
                        assert(self@ =~= old(self)@);
                        Vec::new()
                    },
                    Some(t) => {
                        let ev = VoiceEvent::TrackEnded { title: t.title };
                        let out = notify_all(&mut s.subscriptions, &ev);
                        self.put(guild, s);
                        assert(self@ =~= old(self)@.insert(guild, s@));
                        out
                    },
                }
            },
        }
    }

    /// A periodic interval passed for `guild`: the session's periodic
    /// subscriptions count it. Returns what they post.
    pub fn tick(&mut self, guild: u64) -> (r: Vec<Notice>)
        ensures
            !old(self)@.contains_key(guild) ==> final(self)@ == old(self)@ && r@.len() == 0,
            old(self)@.contains_key(guild) ==> {
                let s = old(self)@[guild];
                &&& final(self)@ == old(self)@.insert(
                    guild,
                    SessionView {
                        subscriptions: s.subscriptions.map_values(
                            |x: Subscription| delivered(x, VoiceEvent::Tick),
                        ),
                        ..s
                    },
                )
                &&& r@.map_values(|n: Notice| notice_view(n)) == notices(
                    s.subscriptions,
                    VoiceEvent::Tick,
                )
            },
    {
        match self.take(guild) {
            None => Vec::new(),
            Some(mut s) => {
                let out = notify_all(&mut s.subscriptions, &VoiceEvent::Tick);
                self.put(guild, s);
                assert(self@ =~= old(self)@.insert(guild, s@));
                out
            },
        }
    }

    /// Records the title of the track playing in `guild`, once resolved.
    pub fn resolve_title(&mut self, guild: u64, title: String)
        ensures
            !old(self)@.contains_key(guild) || old(self)@[guild].queue.len() == 0
                ==> final(self)@ == old(self)@,
            old(self)@.contains_key(guild) && old(self)@[guild].queue.len() > 0 ==> final(self)@
                == with_queue(
                old(self)@,
                guild,
                old(self)@[guild].queue.update(
                    0,
                    Track { title: Some(title), ..old(self)@[guild].queue[0] },
                ),
            ),
    {
        match self.take(guild) {
            None => {},
            Some(mut s) => {
                let ghost t = title;
                let idle = s.queue.is_empty();
                s.queue.resolve_title(title);
                self.put(guild, s);
                if idle {
                    assert(self@ =~= old(self)@);
                } else {
                    assert(self@ =~= with_queue(
                        old(self)@,
                        guild,
                        old(self)@[guild].queue.update(
                            0,
                            Track { title: Some(t), ..old(self)@[guild].queue[0] },
                        ),
                    ));
                }
            },
        }
    }
}

} // verus!
