//! Properties that hold across several operations, proved over the models
//! that the operations' contracts are stated in.

use vstd::prelude::*;
use crate::error::Error;
use crate::reporter::{
    begin_model, failure_text, finish_model, release_model, removal_problem_text,
    without_working, ActionView, Marker, Phase, ReportView,
};
use crate::session::{
    join_model, leave_model, live_subscriptions, mute_model, seek_model, stop_model, JoinTarget,
    Sessions,
};
use crate::track::{head, skip_refusal, Track};

verus! {

/// A guild never gets a second session: a join on a guild that has one
/// leaves every session as it was, however the transport answered.
pub proof fn join_keeps_one_session_per_guild(
    m: Sessions,
    guild: u64,
    target: JoinTarget,
    text_channel: u64,
    transport: Result<(), String>,
)
    requires
        m.contains_key(guild),
    ensures
        join_model(m, guild, target, text_channel, transport) == (m, Ok::<(), Error>(())),
{
}

/// Joining and then leaving a guild, with the disconnect answered, leaves
/// no session for the guild and no live subscription of it.
pub proof fn join_then_leave_leaves_nothing(
    m: Sessions,
    guild: u64,
    target: JoinTarget,
    text_channel: u64,
    connect: Result<(), String>,
    disconnect: Result<(), String>,
)
    requires
        disconnect is Ok,
    ensures
        ({
            let joined = join_model(m, guild, target, text_channel, connect).0;
            let left = leave_model(joined, guild, disconnect).0;
            &&& !left.contains_key(guild)
            &&& live_subscriptions(left, guild) == 0
        }),
{
}

/// Enqueuing on an empty queue makes the track the playing one; on a
/// non-empty queue the playing track stays.
pub proof fn enqueue_sets_current_only_when_idle(q: Seq<Track>, t: Track)
    ensures
        q.len() == 0 ==> head(q.push(t)) == Some(t),
        q.len() > 0 ==> head(q.push(t)) == head(q),
{
}

/// Skipping with nothing queued fails with `Unknown`; with one track
/// playing and a second queued behind it, skipping makes the second play.
pub proof fn skip_moves_to_next(a: Track, b: Track)
    ensures
        skip_refusal(Seq::<Track>::empty()) == Some(Error::Unknown),
        skip_refusal(seq![a].push(b)) is None,
        head(seq![a].push(b).drop_first()) == Some(b),
{
    assert(seq![a].push(b).drop_first() =~= seq![b]);
}

/// Seeking a track that cannot seek fails with `NotSeekable` and leaves
/// every session, its playback position included, as it was.
pub proof fn seek_on_unseekable_changes_nothing(
    m: Sessions,
    guild: u64,
    secs: u64,
    transport: Result<(), String>,
)
    requires
        m.contains_key(guild),
        m[guild].queue.len() > 0,
        !m[guild].queue[0].seekable,
    ensures
        seek_model(m, guild, secs, transport) == (m, Err::<(), Error>(Error::NotSeekable)),
{
}

/// Stopping twice succeeds both times and leaves the queue empty.
pub proof fn stop_is_idempotent(m: Sessions, guild: u64)
    requires
        m.contains_key(guild),
    ensures
        ({
            let (once, r1) = stop_model(m, guild);
            let (twice, r2) = stop_model(once, guild);
            &&& r1 is Ok
            &&& r2 is Ok
            &&& twice.contains_key(guild)
            &&& twice[guild].queue.len() == 0
            &&& twice == once
        }),
{
    let once = stop_model(m, guild).0;
    assert(stop_model(once, guild).0 =~= once);
}

/// Muting twice: the first succeeds once the transport agrees, the second
/// fails with `AlreadyMuted` and changes nothing.
pub proof fn mute_twice_refuses_second(
    m: Sessions,
    guild: u64,
    first: Result<(), String>,
    second: Result<(), String>,
)
    requires
        m.contains_key(guild),
        !m[guild].muted,
        first is Ok,
    ensures
        ({
            let (once, r1) = mute_model(m, guild, true, first);
            &&& r1 is Ok
            &&& mute_model(once, guild, true, second) == (once, Err::<(), Error>(Error::AlreadyMuted))
        }),
{
}

/// A command that ran and failed with `e` gets exactly one failure marker,
/// one reply with the error's text, and no working marker afterwards,
/// whether or not removing that marker succeeded.
pub proof fn failed_command_is_reported_once(e: Error, removed: Result<(), String>)
    ensures
        ({
            let start = ReportView { phase: Phase::Idle, markers: Seq::empty() };
            let (working, a1) = begin_model(start, Ok(()));
            let (failed, a2) = finish_model(working, Err(e));
            let (done, a3) = release_model(failed, removed);
            let reported = seq![
                ActionView::React(Marker::Failed),
                ActionView::ReplyError(failure_text(e)),
                ActionView::Unreact(Marker::Working),
            ];
            &&& done.phase == Phase::Idle
            &&& done.markers == seq![Marker::Failed]
            &&& removed is Ok ==> a1 + a2 + a3 == reported
            &&& removed matches Err(p) ==> a1 + a2 + a3 == reported.push(
                ActionView::ReplyProblem(removal_problem_text(p@)),
            )
        }),
{
    let start = ReportView { phase: Phase::Idle, markers: Seq::empty() };
    let working = begin_model(start, Ok(())).0;
    let failed = finish_model(working, Err(e)).0;
    let ms = failed.markers;
    assert(ms == seq![Marker::Working, Marker::Failed]);
    assert(ms.drop_last() == seq![Marker::Working]);
    assert(ms.drop_last().drop_last() == Seq::<Marker>::empty());
    assert(without_working(ms.drop_last().drop_last()) == Seq::<Marker>::empty());
    assert(without_working(ms.drop_last()) == Seq::<Marker>::empty());
    assert(without_working(ms) =~= seq![Marker::Failed]);
    assert(begin_model(start, Ok(())).1 + finish_model(working, Err(e)).1 =~= finish_model(
        working,
        Err(e),
    ).1);
    let a = begin_model(start, Ok(())).1 + finish_model(working, Err(e)).1 + release_model(
        failed,
        removed,
    ).1;
    match removed {
        Ok(_) => {
            assert(a =~= seq![
                ActionView::React(Marker::Failed),
                ActionView::ReplyError(failure_text(e)),
                ActionView::Unreact(Marker::Working),
            ]);
        },
        Err(p) => {
            assert(a =~= seq![
                ActionView::React(Marker::Failed),
                ActionView::ReplyError(failure_text(e)),
                ActionView::Unreact(Marker::Working),
            ].push(ActionView::ReplyProblem(removal_problem_text(p@))));
        },
    }
}

} // verus!
