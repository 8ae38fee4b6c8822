use discord_bot::error::Error;
use discord_bot::reporter::{Action, Marker, Phase, ReactionReport};

#[test]
fn failed_command_gets_one_failure_marker_and_one_reply() {
    for removed in [Ok(()), Err("missing permission".to_string())] {
        let mut report = ReactionReport::new();
        assert!(report.begin(Ok(())).is_empty());
        assert!(report.is_working());
        let mut actions = report.finish(&Err(Error::InvalidArguments));
        actions.extend(report.release(removed.clone()));
        let failures = actions.iter().filter(|a| **a == Action::React(Marker::Failed)).count();
        let replies = actions.iter().filter(|a| matches!(a, Action::ReplyError(_))).count();
        assert_eq!(failures, 1);
        assert_eq!(replies, 1);
        assert!(actions.contains(&Action::ReplyError(
            "Command Failed. The problem was:\n```Invalid Arguments```".to_string()
        )));
        assert_eq!(report.markers(), &vec![Marker::Failed]);
        assert_eq!(report.phase(), Phase::Idle);
        if let Err(p) = removed {
            assert_eq!(
                actions.last(),
                Some(&Action::ReplyProblem(format!(
                    "Emoji Reaction Remove Failed. The problem was:\n```{}```",
                    p
                )))
            );
        }
    }
}

#[test]
fn successful_command_gets_success_marker() {
    let mut report = ReactionReport::new();
    report.begin(Ok(()));
    let actions = report.finish(&Ok(()));
    assert_eq!(actions, vec![Action::React(Marker::Success), Action::Unreact(Marker::Working)]);
    assert_eq!(report.phase(), Phase::Succeeded);
    assert!(report.release(Ok(())).is_empty());
    assert_eq!(report.markers(), &vec![Marker::Success]);
    assert_eq!(report.phase(), Phase::Idle);
}

#[test]
fn failed_attach_skips_the_command() {
    let mut report = ReactionReport::new();
    let actions = report.begin(Err("rate limited".to_string()));
    assert_eq!(
        actions,
        vec![Action::ReplyProblem(
            "Emoji Reaction Failed. Solve it and try again. The problem was:\n```rate limited```"
                .to_string()
        )]
    );
    assert!(!report.is_working());
    assert!(report.finish(&Ok(())).is_empty());
    assert!(report.markers().is_empty());
}

#[test]
fn error_texts() {
    assert_eq!(Error::InvalidArguments.message(), "Invalid Arguments");
    assert_eq!(
        Error::DetailedInvalidArguments("x".to_string()).message(),
        "Invalid Arguments: x"
    );
    assert_eq!(Error::AlreadyDeafened.message(), "Already deafened");
    assert_eq!(Error::AlreadyMuted.message(), "Already muted");
    assert_eq!(Error::NotInVoiceChannel.message(), "Not in voice channel");
    assert_eq!(Error::NotSeekable.message(), "Not seekable");
    assert_eq!(
        Error::SongbirdInitialization.message(),
        "Songbird Voice client placed in at initialization"
    );
    assert_eq!(Error::Other("boom".to_string()).message(), "boom");
    assert_eq!(Error::Unknown.message(), "Unknown Error");
    assert_eq!(discord_bot::help::Error::Unknown.message(), "Unknown Error");
}
