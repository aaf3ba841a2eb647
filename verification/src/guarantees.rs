//! What holds of the control loop whatever events arrive.

use crate::credentials::CredentialsView;
use crate::orchestrator::accepts;
use crate::orchestrator::held;
use crate::orchestrator::initial;
use crate::orchestrator::run;
use crate::orchestrator::running;
use crate::orchestrator::transition;
use crate::orchestrator::Action;
use crate::orchestrator::EventView;
use crate::orchestrator::OrchestratorView;
use crate::orchestrator::Stage;
use crate::reconnect::after_attempt;
use crate::reconnect::permits;
use vstd::prelude::*;

verus! {

/// Whether every attempt and session that the state names was numbered
/// before the next number to be given out.
pub open spec fn numbers_fresh(s: OrchestratorView) -> bool {
    &&& match s.stage {
        Stage::Connecting { attempt } => attempt < s.next_attempt,
        Stage::Active { session } => session < s.next_attempt,
        Stage::Draining { session } => session < s.next_attempt,
        _ => true,
    }
    &&& match s.event_channel {
        Some(session) => session < s.next_attempt,
        None => true,
    }
}

/// A session is installed only on the success of the pending attempt, when
/// no control task is held; it then is the one held.
pub proof fn law_install_needs_vacancy(s: OrchestratorView, e: EventView, session: u64)
    requires
        transition(s, e).1.contains(Action::StartSession { session }),
    ensures
        s.stage == (Stage::Connecting { attempt: session }),
        held(s.stage) is None,
        transition(s, e).0.stage == (Stage::Active { session }),
{
    let acts = transition(s, e).1;
    let i = choose|i: int| 0 <= i < acts.len() && acts[i] == (Action::StartSession { session });
    assert(acts[i] == (Action::StartSession { session }));
}

/// Credentials from discovery that arrive while a session is active have it
/// stopped and detached before the new connection starts, and leave no
/// control task held.
pub proof fn law_supersede_releases(s: OrchestratorView, c: CredentialsView, session: u64)
    requires
        s.discovery_enabled,
        s.stage == (Stage::Active { session }),
    ensures
        transition(s, EventView::DiscoveredCredentials(c)).1 == seq![
            Action::StopControl { session },
            Action::DetachControlTask { session },
            Action::Connect { attempt: s.next_attempt },
        ],
        transition(s, EventView::DiscoveredCredentials(c)).0.stage == (Stage::Connecting {
            attempt: s.next_attempt,
        }),
        transition(s, EventView::DiscoveredCredentials(c)).0.window == Seq::<u64>::empty(),
        transition(s, EventView::DiscoveredCredentials(c)).0.last_credentials == Some(c),
{
    assert(transition(s, EventView::DiscoveredCredentials(c)).1 =~= seq![
        Action::StopControl { session },
        Action::DetachControlTask { session },
        Action::Connect { attempt: s.next_attempt },
    ]);
}

/// The held control task changes in four ways only: it ends by itself, it
/// is stopped and detached for new credentials, a second interrupt gives up
/// waiting for it, or a session is installed where none was held.
pub proof fn law_held_task_changes(s: OrchestratorView, e: EventView)
    requires
        held(transition(s, e).0.stage) != held(s.stage),
    ensures
        match held(s.stage) {
            Some(session) => {
                &&& held(transition(s, e).0.stage) is None
                &&& e is ControlTaskFinished || (e is Interrupt && s.stage is Draining) || (e
                    is DiscoveredCredentials && transition(
                    s,
                    e,
                ).1.subrange(0, 2) == seq![
                    Action::StopControl { session },
                    Action::DetachControlTask { session },
                ])
            },
            None => e is ConnectionEstablished && transition(s, e).1 == seq![
                Action::StartSession { session: held(transition(s, e).0.stage)->0 },
            ],
        },
{
    match held(s.stage) {
        Some(session) => {
            if e is DiscoveredCredentials {
                assert(transition(s, e).1.subrange(0, 2) =~= seq![
                    Action::StopControl { session },
                    Action::DetachControlTask { session },
                ]);
            }
        },
        None => {
            let installed = held(transition(s, e).0.stage)->0;
            assert(transition(s, e).1 =~= seq![Action::StartSession { session: installed }]);
        },
    }
}

/// In every run of events from any state, a session is installed only where
/// no control task is held: two sessions are never active at once.
pub proof fn law_never_two_active(
    start: OrchestratorView,
    events: Seq<EventView>,
    k: int,
    session: u64,
)
    requires
        0 <= k < events.len(),
        transition(run(start, events.take(k)).0, events[k]).1.contains(
            Action::StartSession { session },
        ),
    ensures
        held(run(start, events.take(k)).0.stage) is None,
        held(run(start, events.take(k + 1)).0.stage) == Some(session),
{
    let before = run(start, events.take(k)).0;
    law_install_needs_vacancy(before, events[k], session);
    assert(events.take(k + 1).drop_last() == events.take(k));
    assert(events.take(k + 1).last() == events[k]);
}

/// While numbers are left, every number that the state names stays below
/// the next one to be given out, so a new attempt or session never shares
/// its number with one named before.
pub proof fn law_numbers_stay_fresh(s: OrchestratorView, e: EventView)
    requires
        numbers_fresh(s),
        s.next_attempt < u64::MAX,
    ensures
        numbers_fresh(transition(s, e).0),
        s.next_attempt <= transition(s, e).0.next_attempt,
{
}

/// The loop starts with fresh numbers.
pub proof fn law_initial_numbers_fresh(
    discovery_enabled: bool,
    authenticate_only: bool,
    credentials: Option<CredentialsView>,
)
    ensures
        numbers_fresh(initial(discovery_enabled, authenticate_only, credentials).0),
{
}

/// A failed connection ends the run with status 1 where no connection was
/// ever established. After an earlier success it only leaves the loop idle:
/// nothing else changes, and discovery is listened to as before.
pub proof fn law_connection_failure(s: OrchestratorView, attempt: u64, c: CredentialsView)
    requires
        s.stage == (Stage::Connecting { attempt }),
    ensures
        !s.ever_connected ==> transition(s, EventView::ConnectionFailed { attempt }) == (
            OrchestratorView { stage: Stage::Terminated { status: 1 }, ..s },
            seq![Action::Exit { status: 1 }],
        ),
        s.ever_connected ==> transition(s, EventView::ConnectionFailed { attempt }) == (
            OrchestratorView { stage: Stage::NoSession, ..s },
            Seq::<Action>::empty(),
        ),
        s.ever_connected ==> accepts(
            transition(s, EventView::ConnectionFailed { attempt }).0,
            EventView::DiscoveredCredentials(c),
        ) == s.discovery_enabled,
{
}

/// A playback event is forwarded only if it comes from the session whose
/// channel is listened to; any other is dropped and changes nothing. What
/// is forwarded is forwarded once, in the step that received it.
pub proof fn law_playback_forwarding(s: OrchestratorView, session: u64)
    ensures
        running(s.stage) && s.event_channel == Some(session) ==> transition(
            s,
            EventView::PlaybackEvent { session },
        ) == (s, seq![Action::Forward { session }]),
        !(running(s.stage) && s.event_channel == Some(session)) ==> transition(
            s,
            EventView::PlaybackEvent { session },
        ) == (s, Seq::<Action>::empty()),
{
}

/// No step but the one that receives a playback event forwards anything.
pub proof fn law_forward_only_on_playback(s: OrchestratorView, e: EventView, session: u64)
    requires
        transition(s, e).1.contains(Action::Forward { session }),
    ensures
        e == (EventView::PlaybackEvent { session }),
        s.event_channel == Some(session),
{
    let acts = transition(s, e).1;
    let i = choose|i: int| 0 <= i < acts.len() && acts[i] == (Action::Forward { session });
    assert(acts[i] == (Action::Forward { session }));
}

/// Once the session of a newer attempt is installed, the channel listened
/// to is its own, and playback events of the session before it are dropped.
pub proof fn law_superseded_session_is_silent(
    s: OrchestratorView,
    c: CredentialsView,
    earlier: u64,
)
    requires
        numbers_fresh(s),
        s.next_attempt < u64::MAX,
        running(s.stage),
        s.discovery_enabled,
        !s.authenticate_only,
        s.event_channel == Some(earlier),
    ensures
        ({
            let claimed = transition(s, EventView::DiscoveredCredentials(c)).0;
            let attempt = s.next_attempt;
            let installed = transition(claimed, EventView::ConnectionEstablished { attempt }).0;
            &&& attempt != earlier
            &&& installed.stage == (Stage::Active { session: attempt })
            &&& installed.event_channel == Some(attempt)
            &&& transition(installed, EventView::PlaybackEvent { session: earlier }) == (
                installed,
                Seq::<Action>::empty(),
            )
        }),
{
}

/// When the control task of the active session ends by itself, a
/// reconnection follows exactly where credentials are known and the window
/// permits one, and the window then holds its time; otherwise the loop goes
/// idle and the window stays as it was.
pub proof fn law_reconnect_follows_window(s: OrchestratorView, session: u64, now: u64)
    requires
        s.stage == (Stage::Active { session }),
    ensures
        ({
            let after = transition(s, EventView::ControlTaskFinished { session, now });
            if s.last_credentials is Some && permits(s.window, now) {
                &&& after.1 == seq![Action::Connect { attempt: s.next_attempt }]
                &&& after.0.stage == (Stage::Connecting { attempt: s.next_attempt })
                &&& after.0.window == after_attempt(s.window, now)
            } else {
                &&& after.1 == Seq::<Action>::empty()
                &&& after.0.stage == Stage::NoSession
                &&& after.0.window == s.window
            }
        }),
{
}

/// The sessions whose playback events a run of actions forwards, in order.
pub open spec fn forwarded(actions: Seq<Action>) -> Seq<u64>
    decreases actions.len(),
{
    if actions.len() == 0 {
        Seq::<u64>::empty()
    } else {
        let before = forwarded(actions.drop_last());
        match actions.last() {
            Action::Forward { session } => before.push(session),
            _ => before,
        }
    }
}

/// The sessions of the playback events in a run of events that arrive while
/// their channel is the one listened to, in order of arrival.
pub open spec fn heard(start: OrchestratorView, events: Seq<EventView>) -> Seq<u64>
    decreases events.len(),
{
    if events.len() == 0 {
        Seq::<u64>::empty()
    } else {
        let before = heard(start, events.drop_last());
        match events.last() {
            EventView::PlaybackEvent { session } => if accepts(
                run(start, events.drop_last()).0,
                events.last(),
            ) {
                before.push(session)
            } else {
                before
            },
            _ => before,
        }
    }
}

/// What two runs of actions forward, one after the other.
proof fn lemma_forwarded_concat(a: Seq<Action>, b: Seq<Action>)
    ensures
        forwarded(a + b) == forwarded(a) + forwarded(b),
    decreases b.len(),
{
    if b.len() == 0 {
        assert(a + b == a);
        assert(forwarded(a) + forwarded(b) == forwarded(a));
    } else {
        lemma_forwarded_concat(a, b.drop_last());
        assert((a + b).drop_last() == a + b.drop_last());
        assert((a + b).last() == b.last());
        match b.last() {
            Action::Forward { session } => {
                assert(forwarded(a) + forwarded(b.drop_last()).push(session) == (forwarded(a)
                    + forwarded(b.drop_last())).push(session));
            },
            _ => {},
        }
    }
}

/// What one step forwards: the playback event it received, if its channel
/// is the one listened to, and nothing else.
proof fn lemma_forwarded_step(s: OrchestratorView, e: EventView)
    ensures
        forwarded(transition(s, e).1) == (match e {
            EventView::PlaybackEvent { session } => if accepts(s, e) {
                seq![session]
            } else {
                Seq::<u64>::empty()
            },
            _ => Seq::<u64>::empty(),
        }),
{
    reveal_with_fuel(forwarded, 5);
    let acts = transition(s, e).1;
    if acts.len() == 0 {
    } else if acts.len() == 1 {
        assert(acts.drop_last().len() == 0);
        assert(forwarded(acts) =~= match acts[0] {
            Action::Forward { session } => seq![session],
            _ => Seq::<u64>::empty(),
        });
    } else {
        assert(e is DiscoveredCredentials);
        assert(acts.len() == 3);
        assert(acts.drop_last().len() == 2);
        assert(acts.drop_last().drop_last().len() == 1);
        assert(acts.drop_last().drop_last().drop_last().len() == 0);
    }
}

/// Over any run of events, the playback events that are forwarded are those
/// that arrive while their channel is the one listened to: each once, and
/// in the order of arrival.
pub proof fn law_forwarding_in_order(start: OrchestratorView, events: Seq<EventView>)
    ensures
        forwarded(run(start, events).1) == heard(start, events),
    decreases events.len(),
{
    if events.len() > 0 {
        let before = run(start, events.drop_last());
        law_forwarding_in_order(start, events.drop_last());
        lemma_forwarded_concat(before.1, transition(before.0, events.last()).1);
        lemma_forwarded_step(before.0, events.last());
        assert(heard(start, events.drop_last()) + Seq::<u64>::empty() == heard(
            start,
            events.drop_last(),
        ));
        match events.last() {
            EventView::PlaybackEvent { session } => {
                assert(heard(start, events.drop_last()) + seq![session] == heard(
                    start,
                    events.drop_last(),
                ).push(session));
            },
            _ => {},
        }
    }
}

/// The first interrupt leaves the selecting loop. With an active session it
/// tells the session to stop and waits; without one the run ends at once
/// with status 0.
pub proof fn law_first_interrupt(s: OrchestratorView)
    requires
        running(s.stage),
    ensures
        match s.stage {
            Stage::Active { session } => transition(s, EventView::Interrupt) == (
                OrchestratorView { stage: Stage::Draining { session }, ..s },
                seq![Action::StopControl { session }],
            ),
            _ => transition(s, EventView::Interrupt) == (
                OrchestratorView { stage: Stage::Terminated { status: 0 }, ..s },
                seq![Action::Exit { status: 0 }],
            ),
        },
{
}

/// While waiting for the stopped session, only two things end the run, both
/// with status 0: the end of its control task, or a second interrupt. Every
/// other event is ignored.
pub proof fn law_draining(s: OrchestratorView, e: EventView, session: u64)
    requires
        s.stage == (Stage::Draining { session }),
    ensures
        e is Interrupt || (e is ControlTaskFinished && e->ControlTaskFinished_session == session)
            ==> transition(s, e) == (
            OrchestratorView { stage: Stage::Terminated { status: 0 }, ..s },
            seq![Action::Exit { status: 0 }],
        ),
        !(e is Interrupt || (e is ControlTaskFinished && e->ControlTaskFinished_session
            == session)) ==> transition(s, e) == (s, Seq::<Action>::empty()),
{
}

/// Once the run has ended nothing moves it again.
pub proof fn law_terminated_is_final(s: OrchestratorView, e: EventView)
    requires
        s.stage is Terminated,
    ensures
        transition(s, e) == (s, Seq::<Action>::empty()),
{
}

/// Discovery that has ended is never listened to again.
pub proof fn law_discovery_stays_off(s: OrchestratorView, e: EventView)
    requires
        !s.discovery_enabled,
    ensures
        !transition(s, e).0.discovery_enabled,
{
}

} // verus!
