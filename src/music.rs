use vstd::prelude::*;
use crate::error::Error;
use crate::session::{
    deafen_model, join_model, join_target_of, leave_model, mute_model, resolve_join_target,
    seek_model, skip_model, stop_model, ChannelInfo, Registry, Sessions, SessionView,
};
use crate::text::{
    digits_value, has_uri_scheme, is_u64_text, parse_u64, starts_with_uri_scheme,
    unsigned_digits,
};
use crate::track::{Track, DEFAULT_VOLUME};
use crate::text::str_eq;

verus! {

/// A track just made from `url`, not resolved or played yet.
pub open spec fn fresh_track(t: Track, url: Seq<char>, seekable: bool) -> bool {
    &&& t.source@ == url
    &&& t.title is None
    &&& t.volume == DEFAULT_VOLUME
    &&& t.position_secs == 0
    &&& t.seekable == seekable
}

/// `n` is `m` with a fresh track of `url` appended to the queue of `guild`.
pub open spec fn queued(m: Sessions, n: Sessions, guild: u64, url: Seq<char>, seekable: bool) -> bool {
    &&& m.contains_key(guild)
    &&& n.contains_key(guild)
    &&& n.remove(guild) == m.remove(guild)
    &&& n[guild] == SessionView { queue: n[guild].queue, ..m[guild] }
    &&& n[guild].queue.len() == m[guild].queue.len() + 1
    &&& n[guild].queue.drop_last() == m[guild].queue
    &&& fresh_track(n[guild].queue.last(), url, seekable)
}

/// Whether the argument of `queue` names a playable source: a URL that
/// starts with a scheme.
pub open spec fn valid_source(arg: Option<String>) -> bool {
    arg matches Some(u) && has_uri_scheme(u@)
}

/// The seconds that the argument of `seek` names, if it names any.
pub open spec fn seek_secs(arg: Option<&str>) -> Option<u64> {
    match arg {
        Some(a) => if is_u64_text(a@) {
            Some(digits_value(unsigned_digits(a@)) as u64)
        } else {
            None
        },
        None => None,
    }
}

/// `join`: connects to the voice channel of the member who asked.
/// `member_channel` is that channel, `info` what the guild knows of it,
/// `text_channel` where session events are reported, and `transport` what
/// the voice transport answered when asked to connect.
pub fn join(
    reg: &mut Registry,
    guild: Option<u64>,
    member_channel: Option<u64>,
    info: Option<ChannelInfo>,
    text_channel: u64,
    transport: Result<(), String>,
) -> (r: Result<(), Error>)
    ensures
        guild is None ==> r == Err::<(), Error>(Error::Unknown) && final(reg)@ == old(reg)@,
        guild matches Some(g) ==> match join_target_of(member_channel, info) {
            Err(e) => r == Err::<(), Error>(e) && final(reg)@ == old(reg)@,
            Ok(t) => (final(reg)@, r) == join_model(old(reg)@, g, t, text_channel, transport),
        },
{
    let g = match guild {
        None => return Err(Error::Unknown),
        Some(g) => g,
    };
    match resolve_join_target(member_channel, info) {
        Err(e) => Err(e),
        Ok(t) => reg.join(g, t, text_channel, transport),
    }
}

/// `leave`: disconnects from the voice channel of the guild.
pub fn leave(reg: &mut Registry, guild: Option<u64>, transport: Result<(), String>) -> (r: Result<
    (),
    Error,
>)
    ensures
        guild is None ==> r == Err::<(), Error>(Error::Unknown) && final(reg)@ == old(reg)@,
        guild matches Some(g) ==> (final(reg)@, r) == leave_model(old(reg)@, g, transport),
{
    match guild {
        None => Err(Error::Unknown),
        Some(g) => reg.leave(g, transport),
    }
}

/// `mute`.
pub fn mute(reg: &mut Registry, guild: Option<u64>, transport: Result<(), String>) -> (r: Result<
    (),
    Error,
>)
    ensures
        guild is None ==> r == Err::<(), Error>(Error::Unknown) && final(reg)@ == old(reg)@,
        guild matches Some(g) ==> (final(reg)@, r) == mute_model(old(reg)@, g, true, transport),
{
    match guild {
        None => Err(Error::Unknown),
        Some(g) => reg.set_mute(g, true, transport),
    }
}

/// `unmute`.
pub fn unmute(reg: &mut Registry, guild: Option<u64>, transport: Result<(), String>) -> (r: Result<
    (),
    Error,
>)
    ensures
        guild is None ==> r == Err::<(), Error>(Error::Unknown) && final(reg)@ == old(reg)@,
        guild matches Some(g) ==> (final(reg)@, r) == mute_model(old(reg)@, g, false, transport),
{
    match guild {
        None => Err(Error::Unknown),
        Some(g) => reg.set_mute(g, false, transport),
    }
}

/// `deafen`.
pub fn deafen(reg: &mut Registry, guild: Option<u64>, transport: Result<(), String>) -> (r: Result<
    (),
    Error,
>)
    ensures
        guild is None ==> r == Err::<(), Error>(Error::Unknown) && final(reg)@ == old(reg)@,
        guild matches Some(g) ==> (final(reg)@, r) == deafen_model(old(reg)@, g, true, transport),
{
    match guild {
        None => Err(Error::Unknown),
        Some(g) => reg.set_deafen(g, true, transport),
    }
}

/// `undeafen`.
pub fn undeafen(reg: &mut Registry, guild: Option<u64>, transport: Result<(), String>) -> (r:
    Result<(), Error>)
    ensures
        guild is None ==> r == Err::<(), Error>(Error::Unknown) && final(reg)@ == old(reg)@,
        guild matches Some(g) ==> (final(reg)@, r) == deafen_model(
            old(reg)@,
            g,
            false,
            transport,
        ),
{
    match guild {
        None => Err(Error::Unknown),
        Some(g) => reg.set_deafen(g, false, transport),
    }
}

/// `queue <url>`: appends a track of `url` to the guild's queue. `source`
/// is what the source resolver answered for the URL: whether the source is
/// seekable, or why it cannot be played. The track itself is resolved only
/// when it comes to play.
pub fn queue(
    reg: &mut Registry,
    guild: Option<u64>,
    arg: Option<String>,
    source: Result<bool, String>,
) -> (r: Result<(), Error>)
    ensures
        !valid_source(arg) ==> r == Err::<(), Error>(Error::InvalidArguments) && final(reg)@ == old(
            reg,
        )@,
        valid_source(arg) ==> match guild {
            None => r == Err::<(), Error>(Error::Unknown) && final(reg)@ == old(reg)@,
            Some(g) => if !old(reg)@.contains_key(g) {
                r == Err::<(), Error>(Error::NotInVoiceChannel) && final(reg)@ == old(reg)@
            } else {
                match source {
                    Err(t) => r == Err::<(), Error>(Error::Other(t)) && final(reg)@ == old(reg)@,
                    Ok(seekable) => r == Ok::<(), Error>(()) && queued(
                        old(reg)@,
                        final(reg)@,
                        g,
                        arg->Some_0@,
                        seekable,
                    ),
                }
            },
        },
{
    let url = match arg {
        None => return Err(Error::InvalidArguments),
        Some(u) => u,
    };
    if !starts_with_uri_scheme(url.as_str()) {
        return Err(Error::InvalidArguments);
    }
    let g = match guild {
        None => return Err(Error::Unknown),
        Some(g) => g,
    };
    if reg.get(g).is_none() {
        return Err(Error::NotInVoiceChannel);
    }
    match source {
        Err(t) => Err(Error::Other(t)),
        Ok(seekable) => {
            let track = Track::new(url, seekable);
            let r = reg.enqueue(g, track);
            assert(reg@.remove(g) =~= old(reg)@.remove(g));
            assert(reg@[g].queue.drop_last() =~= old(reg)@[g].queue);
            r
        },
    }
}

/// `skip`. `transport` is what the voice transport answered when told to
/// stop the playing track.
pub fn skip(reg: &mut Registry, guild: Option<u64>, transport: Result<(), String>) -> (r: Result<
    (),
    Error,
>)
    ensures
        guild is None ==> r == Err::<(), Error>(Error::Unknown) && final(reg)@ == old(reg)@,
        guild matches Some(g) ==> (final(reg)@, r) == skip_model(old(reg)@, g, transport),
{
    match guild {
        None => Err(Error::Unknown),
        Some(g) => reg.skip(g, transport),
    }
}

/// `stop`.
pub fn stop(reg: &mut Registry, guild: Option<u64>) -> (r: Result<(), Error>)
    ensures
        guild is None ==> r == Err::<(), Error>(Error::Unknown) && final(reg)@ == old(reg)@,
        guild matches Some(g) ==> (final(reg)@, r) == stop_model(old(reg)@, g),
{
    match guild {
        None => Err(Error::Unknown),
        Some(g) => reg.stop(g),
    }
}

/// `seek <seconds>`. `transport` is what the voice transport answered when
/// told to seek.
pub fn seek(
    reg: &mut Registry,
    guild: Option<u64>,
    arg: Option<&str>,
    transport: Result<(), String>,
) -> (r: Result<(), Error>)
    ensures
        seek_secs(arg) is None ==> r == Err::<(), Error>(Error::InvalidArguments) && final(reg)@
            == old(reg)@,
        seek_secs(arg) matches Some(secs) ==> match guild {
            None => r == Err::<(), Error>(Error::Unknown) && final(reg)@ == old(reg)@,
            Some(g) => (final(reg)@, r) == seek_model(old(reg)@, g, secs, transport),
        },
{
    let secs = match arg {
        None => return Err(Error::InvalidArguments),
        Some(a) => match parse_u64(a) {
            None => return Err(Error::InvalidArguments),
            Some(s) => s,
        },
    };
    match guild {
        None => Err(Error::Unknown),
        Some(g) => reg.seek(g, secs, transport),
    }
}

/// The commands of the music group.
#[derive(Debug, Clone, Copy, PartialEq, Eq, Structural)]
pub enum MusicCommand {
    Queue,
    Skip,
    Seek,
    Stop,
    Deafen,
    Join,
    Leave,
    Mute,
    Undeafen,
    Unmute,
}

/// The command of the music group that `name` calls, by its name or its
/// alias, if any.
pub open spec fn music_command(name: Seq<char>) -> Option<MusicCommand> {
    if name == "queue"@ || name == "q"@ {
        Some(MusicCommand::Queue)
    } else if name == "skip"@ {
        Some(MusicCommand::Skip)
    } else if name == "seek"@ {
        Some(MusicCommand::Seek)
    } else if name == "stop"@ || name == "s"@ {
        Some(MusicCommand::Stop)
    } else if name == "deafen"@ {
        Some(MusicCommand::Deafen)
    } else if name == "join"@ || name == "j"@ {
        Some(MusicCommand::Join)
    } else if name == "leave"@ || name == "l"@ {
        Some(MusicCommand::Leave)
    } else if name == "mute"@ || name == "m"@ {
        Some(MusicCommand::Mute)
    } else if name == "undeafen"@ {
        Some(MusicCommand::Undeafen)
    } else if name == "unmute"@ {
        Some(MusicCommand::Unmute)
    } else {
        None
    }
}

/// The music command group.
pub struct Music;

impl Music {
    /// The command that `name` calls, by its name or its alias.
    pub fn find(name: &str) -> (r: Option<MusicCommand>)
        ensures
            r == music_command(name@),
    {
        if str_eq(name, "queue") || str_eq(name, "q") {
            Some(MusicCommand::Queue)
        } else if str_eq(name, "skip") {
            Some(MusicCommand::Skip)
        } else if str_eq(name, "seek") {
            Some(MusicCommand::Seek)
        } else if str_eq(name, "stop") || str_eq(name, "s") {
            Some(MusicCommand::Stop)
        } else if str_eq(name, "deafen") {
            Some(MusicCommand::Deafen)
        } else if str_eq(name, "join") || str_eq(name, "j") {
            Some(MusicCommand::Join)
        } else if str_eq(name, "leave") || str_eq(name, "l") {
            Some(MusicCommand::Leave)
        } else if str_eq(name, "mute") || str_eq(name, "m") {
            Some(MusicCommand::Mute)
        } else if str_eq(name, "undeafen") {
            Some(MusicCommand::Undeafen)
        } else if str_eq(name, "unmute") {
            Some(MusicCommand::Unmute)
        } else {
            None
        }
    }
}

} // verus!
