//! Whole runs of a session, and what holds of every run.

use vstd::prelude::*;
use crate::event::{category_of, category_path, classified, decoded, DebugEventModel, Kind};
use crate::keep_alive::{KeepAlive, KEEP_ALIVE_INTERVAL};
use crate::protocol::{Method, ENABLE_ID, FIRST_PROBE_ID};
use crate::render::{rendering_of, unknown_label, Stream};
use crate::session::{log_entry, next, ActionModel, InputModel, Session, SessionErrorModel};

verus! {

/// One report of the driver: what happened, and what the clock read then.
pub struct Report {
    pub input: InputModel,
    pub now: u64,
}

/// The state a session reaches from `session` when the driver makes these
/// reports in turn, and the actions it answers with, one for each report.
pub open spec fn run(session: Session, reports: Seq<Report>) -> (Session, Seq<ActionModel>)
    decreases reports.len(),
{
    if reports.len() == 0 {
        (session, Seq::empty())
    } else {
        let first = next(session, reports[0].input, reports[0].now);
        let rest = run(first.0, reports.drop_first());
        (rest.0, seq![first.1] + rest.1)
    }
}

/// Whether `action` sends a liveness probe.
pub open spec fn is_probe(action: ActionModel) -> bool {
    action matches ActionModel::Send(message) && message.method == Method::GetIsolateId
}

/// The identifiers of the probes among `actions`, in the order they are sent.
pub open spec fn probe_ids(actions: Seq<ActionModel>) -> Seq<u64>
    decreases actions.len(),
{
    if actions.len() == 0 {
        Seq::empty()
    } else {
        let rest = probe_ids(actions.drop_first());
        match actions[0] {
            ActionModel::Send(message) => if message.method == Method::GetIsolateId {
                seq![message.id] + rest
            } else {
                rest
            },
            _ => rest,
        }
    }
}

/// The identifier of the next probe a session in this state would send.
pub open spec fn upcoming_probe(session: Session) -> u64 {
    match session {
        Session::ActiveStreaming(keep_alive) => keep_alive.next_id,
        _ => FIRST_PROBE_ID,
    }
}

proof fn lemma_probe_ids_of_cons(action: ActionModel, rest: Seq<ActionModel>)
    ensures
        probe_ids(seq![action] + rest) == match action {
            ActionModel::Send(message) => if message.method == Method::GetIsolateId {
                seq![message.id] + probe_ids(rest)
            } else {
                probe_ids(rest)
            },
            _ => probe_ids(rest),
        },
{
    let all = seq![action] + rest;
    assert(all.drop_first() =~= rest);
    assert(all[0] == action);
}

/// A session answers every report with exactly one action.
pub proof fn lemma_one_action_per_report(session: Session, reports: Seq<Report>)
    ensures
        run(session, reports).1.len() == reports.len(),
    decreases reports.len(),
{
    if reports.len() > 0 {
        let first = next(session, reports[0].input, reports[0].now);
        lemma_one_action_per_report(first.0, reports.drop_first());
    }
}

/// The action that answers a report is the one the transition function gives
/// in the state that the reports before it led to. So the answers come in the
/// order of the reports: frames are shown in the order in which they arrived,
/// and none is held back.
pub proof fn lemma_reports_are_answered_in_turn(session: Session, reports: Seq<Report>, i: int)
    requires
        0 <= i < reports.len(),
    ensures
        run(session, reports).1.len() == reports.len(),
        run(session, reports).1[i] == next(
            run(session, reports.take(i)).0,
            reports[i].input,
            reports[i].now,
        ).1,
    decreases reports.len(),
{
    lemma_one_action_per_report(session, reports);
    let first = next(session, reports[0].input, reports[0].now);
    let rest = run(first.0, reports.drop_first());
    if i == 0 {
        assert(reports.take(0).len() == 0);
    } else {
        lemma_reports_are_answered_in_turn(first.0, reports.drop_first(), i - 1);
        let before = reports.take(i);
        assert(before.drop_first() =~= reports.drop_first().take(i - 1));
        assert(before[0] == reports[0]);
        assert(run(session, before).0 == run(first.0, before.drop_first()).0);
        assert(run(session, reports).1[i] == rest.1[i - 1]);
    }
}

/// A run can be taken in two parts: the second part starts in the state the
/// first part ended in, and the answers are those of the first part followed
/// by those of the second.
pub proof fn lemma_run_splits(session: Session, before: Seq<Report>, after: Seq<Report>)
    ensures
        run(session, before + after).0 == run(run(session, before).0, after).0,
        run(session, before + after).1 == run(session, before).1 + run(
            run(session, before).0,
            after,
        ).1,
    decreases before.len(),
{
    if before.len() == 0 {
        assert(before + after =~= after);
        assert(run(session, before).1 + run(session, after).1 =~= run(session, after).1);
    } else {
        let all = before + after;
        let first = next(session, before[0].input, before[0].now);
        let middle = run(first.0, before.drop_first());
        let tail = run(middle.0, after);
        assert(all[0] == before[0]);
        assert(all.drop_first() =~= before.drop_first() + after);
        lemma_run_splits(first.0, before.drop_first(), after);
        assert(seq![first.1] + (middle.1 + tail.1) =~= (seq![first.1] + middle.1) + tail.1);
    }
}

/// While streaming, no probe is sent before a full interval has passed on the
/// clock since the generator's last probe, or since streaming started.
pub proof fn lemma_probe_waits_for_the_interval(
    keep_alive: KeepAlive,
    reports: Seq<Report>,
    j: int,
)
    requires
        0 <= j < reports.len(),
        is_probe(run(Session::ActiveStreaming(keep_alive), reports).1[j]),
    ensures
        reports[j].now - keep_alive.last_probe_at >= KEEP_ALIVE_INTERVAL,
    decreases reports.len(),
{
    let session = Session::ActiveStreaming(keep_alive);
    let first = next(session, reports[0].input, reports[0].now);
    let rest = run(first.0, reports.drop_first());
    lemma_one_action_per_report(first.0, reports.drop_first());
    if j > 0 {
        assert(run(session, reports).1[j] == rest.1[j - 1]);
        match first.0 {
            Session::ActiveStreaming(following) => {
                lemma_probe_waits_for_the_interval(following, reports.drop_first(), j - 1);
            },
            _ => {
                lemma_terminated_stays_silent(reports.drop_first());
            },
        }
    }
}

/// Two probes of a session are never closer to each other than a full
/// interval, by the clock readings at which they were sent.
pub proof fn lemma_probes_keep_their_distance(
    session: Session,
    reports: Seq<Report>,
    i: int,
    j: int,
)
    requires
        0 <= i < j < reports.len(),
        is_probe(run(session, reports).1[i]),
        is_probe(run(session, reports).1[j]),
    ensures
        reports[j].now - reports[i].now >= KEEP_ALIVE_INTERVAL,
{
    let before = reports.take(i);
    let upto = reports.take(i + 1);
    let after = reports.skip(i + 1);
    let reached = run(session, before).0;
    let step = next(reached, reports[i].input, reports[i].now);
    lemma_reports_are_answered_in_turn(session, reports, i);
    assert(is_probe(step.1));
    // The state after the probe holds the probe's clock reading.
    let single = seq![reports[i]];
    assert(upto =~= before + single);
    lemma_run_splits(session, before, single);
    assert(single[0] == reports[i]);
    assert(single.drop_first() =~= Seq::<Report>::empty());
    assert(run(step.0, single.drop_first()).0 == step.0);
    assert(run(reached, single).0 == step.0);
    assert(run(session, upto).0 == step.0);
    // The second probe is sent in the run that follows.
    assert(reports =~= upto + after);
    lemma_run_splits(session, upto, after);
    lemma_one_action_per_report(session, upto);
    lemma_one_action_per_report(step.0, after);
    assert(run(session, reports).1[j] == run(step.0, after).1[j - (i + 1)]);
    match step.0 {
        Session::ActiveStreaming(following) => {
            lemma_probe_waits_for_the_interval(following, after, j - (i + 1));
        },
        _ => {},
    }
}

/// How many of `actions` ask the driver to close.
pub open spec fn close_count(actions: Seq<ActionModel>) -> nat
    decreases actions.len(),
{
    if actions.len() == 0 {
        0
    } else {
        let rest = close_count(actions.drop_first());
        if actions[0] is Close {
            1 + rest
        } else {
            rest
        }
    }
}

/// A session asks the driver to close exactly when it terminates, and so at
/// most once: a run that ends in a live session holds no such request, and a
/// run of a live session that ends terminated holds exactly one.
pub proof fn lemma_session_closes_once(session: Session, reports: Seq<Report>)
    ensures
        close_count(run(session, reports).1) == if session != Session::Terminated && run(
            session,
            reports,
        ).0 == Session::Terminated {
            1nat
        } else {
            0nat
        },
    decreases reports.len(),
{
    if reports.len() > 0 {
        let first = next(session, reports[0].input, reports[0].now);
        let rest = run(first.0, reports.drop_first());
        lemma_session_closes_once(first.0, reports.drop_first());
        lemma_terminated_stays_silent(reports.drop_first());
        let all = seq![first.1] + rest.1;
        assert(all.drop_first() =~= rest.1);
        assert(all[0] == first.1);
    }
}

/// A terminated session stays terminated whatever is reported to it, asks for
/// nothing any more, and in particular never sends another probe.
pub proof fn lemma_terminated_stays_silent(reports: Seq<Report>)
    ensures
        run(Session::Terminated, reports).0 == Session::Terminated,
        run(Session::Terminated, reports).1 == Seq::new(reports.len(), |i: int| ActionModel::Wait),
        probe_ids(run(Session::Terminated, reports).1) == Seq::<u64>::empty(),
    decreases reports.len(),
{
    if reports.len() > 0 {
        let rest = run(Session::Terminated, reports.drop_first());
        lemma_terminated_stays_silent(reports.drop_first());
        lemma_probe_ids_of_cons(ActionModel::Wait, rest.1);
        assert(run(Session::Terminated, reports).1 =~= Seq::new(
            reports.len(),
            |i: int| ActionModel::Wait,
        ));
    } else {
        assert(run(Session::Terminated, reports).1 =~= Seq::new(
            reports.len(),
            |i: int| ActionModel::Wait,
        ));
    }
}

/// From any state on, the probes of a run carry consecutive identifiers that
/// start with the one the state holds next.
pub proof fn lemma_probe_ids_count_up(session: Session, reports: Seq<Report>)
    ensures
        forall|i: int|
            0 <= i < probe_ids(run(session, reports).1).len() ==> #[trigger] probe_ids(
                run(session, reports).1,
            )[i] == upcoming_probe(session) + i,
    decreases reports.len(),
{
    if reports.len() > 0 {
        let first = next(session, reports[0].input, reports[0].now);
        let rest = run(first.0, reports.drop_first());
        lemma_probe_ids_count_up(first.0, reports.drop_first());
        lemma_probe_ids_of_cons(first.1, rest.1);
        if first.0 == Session::Terminated {
            lemma_terminated_stays_silent(reports.drop_first());
        }
        let ids = probe_ids(run(session, reports).1);
        let later = probe_ids(rest.1);
        assert forall|i: int| 0 <= i < ids.len() implies #[trigger] ids[i] == upcoming_probe(
            session,
        ) + i by {
            match first.1 {
                ActionModel::Send(message) => {
                    if message.method == Method::GetIsolateId {
                        assert(ids == seq![message.id] + later);
                        if i > 0 {
                            assert(ids[i] == later[i - 1]);
                        }
                    } else {
                        assert(ids == later);
                    }
                },
                _ => {
                    assert(ids == later);
                },
            }
        }
    }
}

/// The probes of a session carry the identifiers 2, 3, 4 and so on, each one
/// more than the one before, whatever else is reported in between and
/// however many frames arrive. None of them is the identifier of the message
/// that enabled instrumentation.
pub proof fn lemma_probe_ids_are_consecutive(reports: Seq<Report>)
    ensures
        forall|i: int|
            0 <= i < probe_ids(run(Session::Connecting { opened: false }, reports).1).len()
                ==> #[trigger] probe_ids(run(Session::Connecting { opened: false }, reports).1)[i]
                == FIRST_PROBE_ID + i,
        forall|i: int|
            0 <= i < probe_ids(run(Session::Connecting { opened: false }, reports).1).len()
                ==> #[trigger] probe_ids(run(Session::Connecting { opened: false }, reports).1)[i]
                != ENABLE_ID,
{
    lemma_probe_ids_count_up(Session::Connecting { opened: false }, reports);
}

/// When a message cannot be sent, a live session ends at once with that
/// failure: it asks the driver to stop everything, the reading of the socket
/// included, and from then on asks for nothing.
pub proof fn lemma_send_failure_ends_session(
    session: Session,
    reason: Seq<char>,
    now: u64,
    later: Seq<Report>,
)
    requires
        session != Session::Terminated,
    ensures
        next(session, InputModel::SendFailed(reason), now) == (
            Session::Terminated,
            ActionModel::Close(Err(SessionErrorModel::Send(reason))),
        ),
        run(Session::Terminated, later).0 == Session::Terminated,
        run(Session::Terminated, later).1 == Seq::new(later.len(), |i: int| ActionModel::Wait),
{
    lemma_terminated_stays_silent(later);
}

/// When the remote end closes the connection, a live session ends at once and
/// successfully: it asks the driver to stop everything, and no probe is sent
/// afterwards, whatever the clock reads.
pub proof fn lemma_remote_close_ends_session(session: Session, now: u64, later: Seq<Report>)
    requires
        session != Session::Terminated,
    ensures
        next(session, InputModel::RemoteClosed, now) == (
            Session::Terminated,
            ActionModel::Close(Ok(())),
        ),
        run(Session::Terminated, later).0 == Session::Terminated,
        probe_ids(run(Session::Terminated, later).1) == Seq::<u64>::empty(),
{
    lemma_terminated_stays_silent(later);
}

/// A frame that is not recognised changes nothing: the session goes on
/// streaming in the state it was in, and all that comes of the frame is one
/// log entry.
pub proof fn lemma_unrecognised_frame_is_only_logged(
    keep_alive: KeepAlive,
    raw: Seq<char>,
    now: u64,
)
    ensures
        classified(raw) matches Err(error) ==> next(
            Session::ActiveStreaming(keep_alive),
            InputModel::MessageReceived(raw),
            now,
        ) == (Session::ActiveStreaming(keep_alive), ActionModel::Log(log_entry(error))),
{
}

/// A frame that decodes as a console call while the session is streaming is
/// always written, never dropped: to standard error if its category is
/// `error`, to standard output otherwise; and unless its category is `log` or
/// `error`, behind a note that names the category. What is written is the
/// value decoded from that very frame. The session goes on streaming.
pub proof fn lemma_console_call_is_written(keep_alive: KeepAlive, raw: Seq<char>, now: u64)
    ensures
        decoded(raw, category_path()) matches Ok(found) ==> found.kind == Kind::ConsoleCall ==> ({
            let category = category_of(found);
            let step = next(
                Session::ActiveStreaming(keep_alive),
                InputModel::MessageReceived(raw),
                now,
            );
            &&& step.0 == Session::ActiveStreaming(keep_alive)
            &&& step.1 matches ActionModel::Write(line)
            &&& line == rendering_of(
                DebugEventModel::ConsoleCall { category, payload: found.payload },
            )
            &&& line.payload == found.payload
            &&& line.stream == if category == "error"@ {
                Stream::Stderr
            } else {
                Stream::Stdout
            }
            &&& category != "log"@ && category != "error"@ ==> line.label == unknown_label(category)
        }),
{
    reveal_strlit("log");
    reveal_strlit("error");
}

/// A frame that decodes as an uncaught exception while the session is
/// streaming is always written, to standard error.
pub proof fn lemma_exception_is_written(keep_alive: KeepAlive, raw: Seq<char>, now: u64)
    ensures
        decoded(raw, category_path()) matches Ok(found) ==> found.kind == Kind::ExceptionThrown
            ==> ({
            let step = next(
                Session::ActiveStreaming(keep_alive),
                InputModel::MessageReceived(raw),
                now,
            );
            &&& step.0 == Session::ActiveStreaming(keep_alive)
            &&& step.1 matches ActionModel::Write(line)
            &&& line.payload == found.payload
            &&& line.stream == Stream::Stderr
        }),
{
}

} // verus!
