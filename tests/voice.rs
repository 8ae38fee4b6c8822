use discord_bot::error::Error;
use discord_bot::music::{self, Music, MusicCommand};
use discord_bot::session::{resolve_join_target, ChannelInfo, JoinTarget, Registry};
use discord_bot::track::{PlaybackQueue, Track, DEFAULT_VOLUME};

const GUILD: u64 = 42;
const TEXT: u64 = 7;

fn target() -> JoinTarget {
    JoinTarget { channel: 100, bitrate: 64000 }
}

fn joined() -> Registry {
    let mut reg = Registry::new();
    assert_eq!(reg.join(GUILD, target(), TEXT, Ok(())), Ok(()));
    reg
}

fn url(s: &str) -> Option<String> {
    Some(s.to_string())
}

#[test]
fn queue_needs_a_session_then_plays_the_url() {
    let mut reg = Registry::new();
    let r = music::queue(&mut reg, Some(GUILD), url("https://example.com/a.mp3"), Ok(true));
    assert_eq!(r, Err(Error::NotInVoiceChannel));
    assert_eq!(reg.join(GUILD, target(), TEXT, Ok(())), Ok(()));
    let r = music::queue(&mut reg, Some(GUILD), url("https://example.com/a.mp3"), Ok(true));
    assert_eq!(r, Ok(()));
    let t = reg.current(GUILD).expect("a track plays");
    assert_eq!(t.source, "https://example.com/a.mp3");
    assert_eq!(t.volume, DEFAULT_VOLUME);
    assert_eq!(t.title, None);
}

#[test]
fn mute_twice_fails_the_second_time() {
    let mut reg = joined();
    assert_eq!(music::mute(&mut reg, Some(GUILD), Ok(())), Ok(()));
    assert!(reg.get(GUILD).unwrap().is_muted());
    assert_eq!(music::mute(&mut reg, Some(GUILD), Ok(())), Err(Error::AlreadyMuted));
    assert_eq!(music::unmute(&mut reg, Some(GUILD), Ok(())), Ok(()));
    assert!(!reg.get(GUILD).unwrap().is_muted());
}

#[test]
fn deafen_twice_fails_the_second_time() {
    let mut reg = joined();
    assert_eq!(music::deafen(&mut reg, Some(GUILD), Ok(())), Ok(()));
    assert_eq!(music::deafen(&mut reg, Some(GUILD), Ok(())), Err(Error::AlreadyDeafened));
    assert_eq!(music::undeafen(&mut reg, Some(GUILD), Ok(())), Ok(()));
    assert!(!reg.get(GUILD).unwrap().is_deafened());
}

#[test]
fn mute_transport_failure_is_passed_on() {
    let mut reg = joined();
    let r = music::mute(&mut reg, Some(GUILD), Err("gateway closed".to_string()));
    assert_eq!(r, Err(Error::Other("gateway closed".to_string())));
    assert!(!reg.get(GUILD).unwrap().is_muted());
}

#[test]
fn mute_without_session_or_guild() {
    let mut reg = Registry::new();
    assert_eq!(music::mute(&mut reg, Some(GUILD), Ok(())), Err(Error::NotInVoiceChannel));
    assert_eq!(music::mute(&mut reg, None, Ok(())), Err(Error::Unknown));
}

#[test]
fn three_ticks_count_one_two_three() {
    let mut reg = joined();
    let mut texts = Vec::new();
    for _ in 0..3 {
        let notices = reg.tick(GUILD);
        assert_eq!(notices.len(), 1);
        assert_eq!(notices[0].channel, TEXT);
        texts.push(notices[0].text.clone());
    }
    assert_eq!(
        texts,
        vec![
            "I've been in 7 for 1 minutes!".to_string(),
            "I've been in 7 for 2 minutes!".to_string(),
            "I've been in 7 for 3 minutes!".to_string(),
        ]
    );
}

#[test]
fn tick_without_session_posts_nothing() {
    let mut reg = Registry::new();
    assert!(reg.tick(GUILD).is_empty());
}

#[test]
fn join_then_leave_leaves_no_session() {
    let mut reg = joined();
    assert_eq!(reg.get(GUILD).unwrap().subscription_count(), 2);
    assert_eq!(music::leave(&mut reg, Some(GUILD), Ok(())), Ok(()));
    assert!(reg.get(GUILD).is_none());
    assert!(reg.tick(GUILD).is_empty());
    assert_eq!(music::leave(&mut reg, Some(GUILD), Ok(())), Err(Error::NotInVoiceChannel));
}

#[test]
fn leave_transport_failure_keeps_session() {
    let mut reg = joined();
    let r = music::leave(&mut reg, Some(GUILD), Err("timeout".to_string()));
    assert_eq!(r, Err(Error::Other("timeout".to_string())));
    assert!(reg.get(GUILD).is_some());
}

#[test]
fn second_join_keeps_first_session() {
    let mut reg = joined();
    let other = JoinTarget { channel: 200, bitrate: 96000 };
    assert_eq!(reg.join(GUILD, other, 8, Ok(())), Ok(()));
    let s = reg.get(GUILD).unwrap();
    assert_eq!(s.channel(), 100);
    assert_eq!(s.bitrate(), 64000);
    assert_eq!(s.text_channel(), TEXT);
    assert_eq!(s.guild(), GUILD);
}

#[test]
fn join_connect_failure_makes_no_session() {
    let mut reg = Registry::new();
    let r = reg.join(GUILD, target(), TEXT, Err("no route".to_string()));
    assert_eq!(r, Err(Error::Other("no route".to_string())));
    assert!(reg.get(GUILD).is_none());
}

#[test]
fn join_command_resolves_member_channel() {
    let mut reg = Registry::new();
    let voice = ChannelInfo { in_guild: true, bitrate: Some(64000) };
    assert_eq!(
        music::join(&mut reg, Some(GUILD), None, Some(voice), TEXT, Ok(())),
        Err(Error::NotInVoiceChannel)
    );
    assert_eq!(music::join(&mut reg, Some(GUILD), Some(100), None, TEXT, Ok(())), Err(Error::Unknown));
    assert_eq!(music::join(&mut reg, None, Some(100), Some(voice), TEXT, Ok(())), Err(Error::Unknown));
    assert!(reg.get(GUILD).is_none());
    assert_eq!(music::join(&mut reg, Some(GUILD), Some(100), Some(voice), TEXT, Ok(())), Ok(()));
    assert_eq!(reg.get(GUILD).unwrap().bitrate(), 64000);
}

#[test]
fn join_target_needs_a_voice_channel() {
    let text_channel = ChannelInfo { in_guild: true, bitrate: None };
    let private = ChannelInfo { in_guild: false, bitrate: Some(1) };
    assert_eq!(resolve_join_target(Some(5), Some(text_channel)), Err(Error::NotInVoiceChannel));
    assert_eq!(resolve_join_target(Some(5), Some(private)), Err(Error::NotInVoiceChannel));
    let voice = ChannelInfo { in_guild: true, bitrate: Some(8000) };
    assert_eq!(resolve_join_target(Some(5), Some(voice)), Ok(JoinTarget { channel: 5, bitrate: 8000 }));
}

#[test]
fn enqueue_starts_only_on_empty_queue() {
    let mut q = PlaybackQueue::new();
    assert!(q.current().is_none());
    q.enqueue(Track::new("https://a".to_string(), true));
    assert_eq!(q.current().unwrap().source, "https://a");
    q.enqueue(Track::new("https://b".to_string(), true));
    assert_eq!(q.current().unwrap().source, "https://a");
    assert_eq!(q.len(), 2);
}

#[test]
fn skip_empty_fails_and_skip_moves_on() {
    let mut reg = joined();
    assert_eq!(music::skip(&mut reg, Some(GUILD), Ok(())), Err(Error::Unknown));
    music::queue(&mut reg, Some(GUILD), url("https://a"), Ok(true)).unwrap();
    music::queue(&mut reg, Some(GUILD), url("https://b"), Ok(true)).unwrap();
    assert_eq!(music::skip(&mut reg, Some(GUILD), Ok(())), Ok(()));
    assert_eq!(reg.current(GUILD).unwrap().source, "https://b");
    assert_eq!(music::skip(&mut reg, Some(GUILD), Ok(())), Ok(()));
    assert!(reg.current(GUILD).is_none());
}

#[test]
fn skip_transport_failure_keeps_track() {
    let mut reg = joined();
    music::queue(&mut reg, Some(GUILD), url("https://a"), Ok(true)).unwrap();
    let r = music::skip(&mut reg, Some(GUILD), Err("driver gone".to_string()));
    assert_eq!(r, Err(Error::Other("driver gone".to_string())));
    assert_eq!(reg.current(GUILD).unwrap().source, "https://a");
}

#[test]
fn seek_unseekable_keeps_position() {
    let mut reg = joined();
    music::queue(&mut reg, Some(GUILD), url("https://live"), Ok(false)).unwrap();
    assert_eq!(music::seek(&mut reg, Some(GUILD), Some("30"), Ok(())), Err(Error::NotSeekable));
    assert_eq!(reg.current(GUILD).unwrap().position_secs, 0);
}

#[test]
fn seek_moves_seekable_track() {
    let mut reg = joined();
    assert_eq!(music::seek(&mut reg, Some(GUILD), Some("30"), Ok(())), Err(Error::Unknown));
    music::queue(&mut reg, Some(GUILD), url("https://a"), Ok(true)).unwrap();
    assert_eq!(music::seek(&mut reg, Some(GUILD), Some("+90"), Ok(())), Ok(()));
    assert_eq!(reg.current(GUILD).unwrap().position_secs, 90);
    let r = music::seek(&mut reg, Some(GUILD), Some("5"), Err("decoder".to_string()));
    assert_eq!(r, Err(Error::Other("decoder".to_string())));
    assert_eq!(reg.current(GUILD).unwrap().position_secs, 90);
}

#[test]
fn seek_rejects_bad_arguments() {
    let mut reg = joined();
    music::queue(&mut reg, Some(GUILD), url("https://a"), Ok(true)).unwrap();
    for bad in ["", "abc", "-5", "12s", "+", "18446744073709551616"] {
        assert_eq!(
            music::seek(&mut reg, Some(GUILD), Some(bad), Ok(())),
            Err(Error::InvalidArguments),
            "argument {:?}",
            bad
        );
    }
    assert_eq!(music::seek(&mut reg, Some(GUILD), None, Ok(())), Err(Error::InvalidArguments));
    assert_eq!(music::seek(&mut reg, None, Some("1"), Ok(())), Err(Error::Unknown));
    assert_eq!(music::seek(&mut reg, Some(GUILD), Some("18446744073709551615"), Ok(())), Ok(()));
    assert_eq!(reg.current(GUILD).unwrap().position_secs, u64::MAX);
}

#[test]
fn stop_twice_succeeds_and_empties() {
    let mut reg = joined();
    music::queue(&mut reg, Some(GUILD), url("https://a"), Ok(true)).unwrap();
    music::queue(&mut reg, Some(GUILD), url("https://b"), Ok(true)).unwrap();
    assert_eq!(music::stop(&mut reg, Some(GUILD)), Ok(()));
    assert_eq!(music::stop(&mut reg, Some(GUILD)), Ok(()));
    assert!(reg.get(GUILD).unwrap().queue().is_empty());
}

#[test]
fn queue_rejects_bad_sources() {
    let mut reg = joined();
    for bad in ["example.com/a.mp3", "", "1http://a", "http:", ":x", "ht tp://a"] {
        assert_eq!(
            music::queue(&mut reg, Some(GUILD), url(bad), Ok(true)),
            Err(Error::InvalidArguments),
            "source {:?}",
            bad
        );
    }
    assert_eq!(music::queue(&mut reg, Some(GUILD), None, Ok(true)), Err(Error::InvalidArguments));
    assert_eq!(music::queue(&mut reg, None, url("https://a"), Ok(true)), Err(Error::Unknown));
    let r = music::queue(&mut reg, Some(GUILD), url("https://a"), Err("not playable".to_string()));
    assert_eq!(r, Err(Error::Other("not playable".to_string())));
    assert!(reg.current(GUILD).is_none());
    assert_eq!(music::queue(&mut reg, Some(GUILD), url("rtmp+s.x-y://host/live"), Ok(false)), Ok(()));
}

#[test]
fn track_end_names_the_track_and_moves_on() {
    let mut reg = joined();
    music::queue(&mut reg, Some(GUILD), url("https://a"), Ok(true)).unwrap();
    music::queue(&mut reg, Some(GUILD), url("https://b"), Ok(true)).unwrap();
    let notices = reg.track_finished(GUILD);
    assert_eq!(notices.len(), 1);
    assert_eq!(notices[0].channel, TEXT);
    assert_eq!(notices[0].text, "Tracks ended: Unknown.");
    assert_eq!(reg.current(GUILD).unwrap().source, "https://b");
    reg.track_finished(GUILD);
    assert!(reg.track_finished(GUILD).is_empty());
}

#[test]
fn volume_of_playing_track() {
    let mut q = PlaybackQueue::new();
    assert_eq!(q.set_volume(20), Err(Error::Unknown));
    q.enqueue(Track::new("https://a".to_string(), true));
    assert_eq!(q.set_volume(101), Err(Error::InvalidArguments));
    assert_eq!(q.set_volume(20), Ok(()));
    assert_eq!(q.current().unwrap().volume, 20);
}

#[test]
fn music_commands_by_name_and_alias() {
    assert_eq!(Music::find("queue"), Some(MusicCommand::Queue));
    assert_eq!(Music::find("q"), Some(MusicCommand::Queue));
    assert_eq!(Music::find("j"), Some(MusicCommand::Join));
    assert_eq!(Music::find("l"), Some(MusicCommand::Leave));
    assert_eq!(Music::find("m"), Some(MusicCommand::Mute));
    assert_eq!(Music::find("s"), Some(MusicCommand::Stop));
    assert_eq!(Music::find("unmute"), Some(MusicCommand::Unmute));
    assert_eq!(Music::find("undeafen"), Some(MusicCommand::Undeafen));
    assert_eq!(Music::find("seek"), Some(MusicCommand::Seek));
    assert_eq!(Music::find("u"), None);
    assert_eq!(Music::find("Queue"), None);
}

#[test]
fn track_end_names_a_resolved_title() {
    let mut reg = joined();
    reg.resolve_title(GUILD, "nothing plays".to_string());
    assert!(reg.current(GUILD).is_none());
    music::queue(&mut reg, Some(GUILD), url("https://a"), Ok(true)).unwrap();
    reg.resolve_title(GUILD, "Song A".to_string());
    assert_eq!(reg.current(GUILD).unwrap().title, Some("Song A".to_string()));
    let notices = reg.track_finished(GUILD);
    assert_eq!(notices.len(), 1);
    assert_eq!(notices[0].text, "Tracks ended: Song A.");
}
