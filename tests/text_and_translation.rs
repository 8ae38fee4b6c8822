use discord_bot::emoji::{get_locale_by_flag, EN_US, JA_JP, KO_KR};
use discord_bot::error::Error;
use discord_bot::general::{self, General, GeneralCommand, Handler as GeneralHandler};
use discord_bot::notifier::{Notifier, VoiceEvent};
use discord_bot::text::{decimal_string, parse_u64, starts_with_uri_scheme, str_eq};
use discord_bot::translate::{
    finish_translation, plan_translation, GoogleProjectId, Handler, LastTranslationLanguageCache,
    ReactionEmoji, Translate,
};

#[test]
fn locale_of_flags() {
    assert_eq!(get_locale_by_flag(KO_KR), Some("ko-kr"));
    assert_eq!(get_locale_by_flag("\u{1F1F0}\u{1F1F7}"), Some("ko-kr"));
    assert_eq!(get_locale_by_flag(JA_JP), Some("ja-jp"));
    assert_eq!(get_locale_by_flag(EN_US), Some("en-us"));
    assert_eq!(get_locale_by_flag("\u{1F1EB}\u{1F1F7}"), None);
    assert_eq!(get_locale_by_flag(""), None);
}

#[test]
fn reaction_locale_ignores_custom_emoji() {
    let h = Handler;
    assert_eq!(h.reaction_locale(&ReactionEmoji::Custom), None);
    assert_eq!(h.reaction_locale(&ReactionEmoji::Unicode(JA_JP.to_string())), Some("ja-jp"));
    assert_eq!(h.reaction_locale(&ReactionEmoji::Unicode("x".to_string())), None);
}

#[test]
fn decimal_and_parsing() {
    assert_eq!(decimal_string(0), "0");
    assert_eq!(decimal_string(1907), "1907");
    assert_eq!(decimal_string(u64::MAX), "18446744073709551615");
    assert_eq!(parse_u64("0"), Some(0));
    assert_eq!(parse_u64("+12"), Some(12));
    assert_eq!(parse_u64("007"), Some(7));
    assert_eq!(parse_u64("18446744073709551615"), Some(u64::MAX));
    assert_eq!(parse_u64("18446744073709551616"), None);
    assert_eq!(parse_u64("99999999999999999999x"), None);
    assert_eq!(parse_u64(""), None);
    assert_eq!(parse_u64("1 2"), None);
}

#[test]
fn uri_schemes_and_equality() {
    assert!(starts_with_uri_scheme("https://example.com/a.mp3"));
    assert!(starts_with_uri_scheme("a:b"));
    assert!(!starts_with_uri_scheme("a:"));
    assert!(!starts_with_uri_scheme("-a:b"));
    assert!(str_eq("abc", "abc"));
    assert!(!str_eq("abc", "abd"));
    assert!(!str_eq("ab", "abc"));
}

#[test]
fn translation_target_and_reference() {
    let mut cache = LastTranslationLanguageCache::new();
    let r = plan_translation(&cache, 1, None, Some("ko-kr".to_string()));
    assert_eq!(
        r.unwrap_err(),
        Error::DetailedInvalidArguments("Reference message to translate".to_string())
    );
    let r = plan_translation(&cache, 1, Some("hello".to_string()), None);
    assert_eq!(r.unwrap_err(), Error::InvalidArguments);
    let q = plan_translation(&cache, 1, Some("hello".to_string()), Some("ja-jp".to_string())).unwrap();
    assert_eq!(q.content, "hello");
    assert_eq!(q.target, "ja-jp");
    let reply = finish_translation(
        &mut cache,
        1,
        q.target,
        Ok(Some(vec![Some("Tom &amp; Jerry &lt;3".to_string())])),
    );
    assert_eq!(reply, Ok("Tom & Jerry <3".to_string()));
    assert_eq!(cache.get(1), Some("ja-jp".to_string()));
    let q = plan_translation(&cache, 1, Some("bye".to_string()), None).unwrap();
    assert_eq!(q.target, "ja-jp");
    assert_eq!(cache.get(2), None);
}

#[test]
fn translation_failures() {
    let mut cache = LastTranslationLanguageCache::new();
    let t = || "en-us".to_string();
    assert_eq!(
        finish_translation(&mut cache, 1, t(), Err("quota".to_string())),
        Err(Error::Other("quota".to_string()))
    );
    assert_eq!(finish_translation(&mut cache, 1, t(), Ok(None)), Err(Error::Unknown));
    assert_eq!(finish_translation(&mut cache, 1, t(), Ok(Some(vec![]))), Err(Error::Unknown));
    assert_eq!(finish_translation(&mut cache, 1, t(), Ok(Some(vec![None]))), Err(Error::Unknown));
    assert_eq!(cache.get(1), None);
    assert_eq!(
        finish_translation(&mut cache, 1, t(), Ok(Some(vec![Some("plain".to_string())]))),
        Ok("plain".to_string())
    );
}

#[test]
fn project_parent_and_groups() {
    let p = GoogleProjectId { id: "bot-123".to_string() };
    assert_eq!(p.parent(), "projects/bot-123");
    assert!(Translate::find("translate"));
    assert!(Translate::find("t"));
    assert!(!Translate::find("tr"));
    assert_eq!(General::find("ping"), Some(GeneralCommand::Ping));
    assert_eq!(General::find("echo"), Some(GeneralCommand::Echo));
    assert_eq!(General::find("pong"), None);
}

#[test]
fn general_commands() {
    assert_eq!(general::ping(), Ok(()));
    assert_eq!(general::echo(Some("hi".to_string())), Ok("hi".to_string()));
    assert_eq!(general::echo(None), Err(Error::InvalidArguments));
    assert_eq!(GeneralHandler.ready_line("bot"), "bot is connected!");
}

#[test]
fn notifiers_act_on_their_events() {
    let mut end = Notifier::TrackEnd { channel: 3 };
    let ev = VoiceEvent::TrackEnded { title: Some("Song".to_string()) };
    assert_eq!(end.act(&ev).unwrap().text, "Tracks ended: Song.");
    assert!(end.act(&VoiceEvent::Tick).is_none());
    let mut fade = Notifier::SongEnd { channel: 3 };
    assert_eq!(fade.act(&VoiceEvent::Tick).unwrap().text, "Song faded out completely!");
    let mut dur = Notifier::ChannelDuration { channel: 3, count: u64::MAX };
    let n = dur.act(&VoiceEvent::Tick).unwrap();
    assert_eq!(n.text, "I've been in 3 for 18446744073709551615 minutes!");
    assert_eq!(dur, Notifier::ChannelDuration { channel: 3, count: u64::MAX });
}
