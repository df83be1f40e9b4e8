//! Laws of the supervisor over whole runs: what the stream observes while
//! the connection fails, comes back, or is given up.

use crate::errors::ClientErrorView;
use crate::frame::ItemView;
use crate::supervisor::{
    ActionView, BACKOFF_SECS, Resume, SignalView, State, next, receive_failed, reconnect_failed,
    reconnect_succeeded,
};
use vstd::prelude::*;

verus! {

/// The state reached and the actions asked for, in order, when the
/// supervisor takes the given signals one after the other.
pub open spec fn run(reconnect: bool, state: State, signals: Seq<SignalView>) -> (
    State,
    Seq<ActionView>,
)
    decreases signals.len(),
{
    if signals.len() == 0 {
        (state, Seq::empty())
    } else {
        let (then, action) = next(reconnect, state, signals[0]);
        let (last, rest) = run(reconnect, then, signals.drop_first());
        (last, seq![action] + rest)
    }
}

/// The items handed to the channel by a sequence of actions, in order.
pub open spec fn delivered(actions: Seq<ActionView>) -> Seq<ItemView>
    decreases actions.len(),
{
    if actions.len() == 0 {
        Seq::empty()
    } else {
        let rest = delivered(actions.drop_first());
        match actions[0] {
            ActionView::Deliver(item) => seq![item] + rest,
            _ => rest,
        }
    }
}

/// Whether none of the actions attempts to connect, or waits to do so.
pub open spec fn never_reconnects(actions: Seq<ActionView>) -> bool {
    forall|i: int|
        0 <= i < actions.len() ==> (#[trigger] actions[i]) !is Connect && actions[i] !is Sleep
}

/// A run that starts with one signal.
pub proof fn lemma_run_first(
    reconnect: bool,
    state: State,
    signal: SignalView,
    rest: Seq<SignalView>,
)
    ensures
        run(reconnect, state, seq![signal] + rest) == ({
            let (then, action) = next(reconnect, state, signal);
            let (last, actions) = run(reconnect, then, rest);
            (last, seq![action] + actions)
        }),
{
    let all = seq![signal] + rest;
    assert(all[0] == signal);
    assert(all.drop_first() =~= rest);
}

/// The items of a sequence of actions that starts with one action.
pub proof fn lemma_delivered_first(action: ActionView, rest: Seq<ActionView>)
    ensures
        delivered(seq![action] + rest) == match action {
            ActionView::Deliver(item) => seq![item] + delivered(rest),
            _ => delivered(rest),
        },
{
    let all = seq![action] + rest;
    assert(all[0] == action);
    assert(all.drop_first() =~= rest);
}

/// The items of two sequences of actions joined.
pub proof fn lemma_delivered_add(first: Seq<ActionView>, second: Seq<ActionView>)
    ensures
        delivered(first + second) == delivered(first) + delivered(second),
    decreases first.len(),
{
    if first.len() == 0 {
        assert(first + second =~= second);
        assert(delivered(first) + delivered(second) =~= delivered(second));
    } else {
        let all = first + second;
        assert(all[0] == first[0]);
        assert(all.drop_first() =~= first.drop_first() + second);
        lemma_delivered_add(first.drop_first(), second);
        let rest = delivered(first.drop_first());
        match first[0] {
            ActionView::Deliver(item) => {
                assert((seq![item] + rest) + delivered(second) =~= seq![item] + (rest
                    + delivered(second)));
            },
            _ => {},
        }
    }
}

/// A run over two sequences of signals joined is the run over the first,
/// followed from where it ended by the run over the second.
pub proof fn lemma_run_add(
    reconnect: bool,
    state: State,
    first: Seq<SignalView>,
    second: Seq<SignalView>,
)
    ensures
        run(reconnect, state, first + second) == ({
            let (middle, before) = run(reconnect, state, first);
            let (last, after) = run(reconnect, middle, second);
            (last, before + after)
        }),
    decreases first.len(),
{
    if first.len() == 0 {
        assert(first + second =~= second);
        let (last, after) = run(reconnect, state, second);
        assert(Seq::<ActionView>::empty() + after =~= after);
    } else {
        let all = first + second;
        assert(all[0] == first[0]);
        assert(all.drop_first() =~= first.drop_first() + second);
        let (then, action) = next(reconnect, state, first[0]);
        lemma_run_add(reconnect, then, first.drop_first(), second);
        let (middle, before) = run(reconnect, then, first.drop_first());
        let (last, after) = run(reconnect, middle, second);
        assert(seq![action] + (before + after) =~= (seq![action] + before) + after);
    }
}

/// Order and no loss: whatever signals follow, the items that were handed to
/// the channel before them stay as they are, in their order, and what comes
/// later is appended behind them.
pub proof fn law_delivered_items_stay(
    reconnect: bool,
    state: State,
    first: Seq<SignalView>,
    second: Seq<SignalView>,
)
    ensures
        delivered(run(reconnect, state, first + second).1) == delivered(
            run(reconnect, state, first).1,
        ) + delivered(run(reconnect, run(reconnect, state, first).0, second).1),
{
    lemma_run_add(reconnect, state, first, second);
    lemma_delivered_add(
        run(reconnect, state, first).1,
        run(reconnect, run(reconnect, state, first).0, second).1,
    );
}

/// Cancellation: in every state, also while an item waits for a full
/// channel, the signal that the consumer is gone stops the supervisor in that
/// same step, and nothing is delivered, read or attempted.
pub proof fn law_consumer_gone_stops(reconnect: bool, state: State)
    ensures
        next(reconnect, state, SignalView::ConsumerGone) == (State::Closed, ActionView::Stop),
        forall|to: Resume|
            next(reconnect, State::Sending(to), SignalView::ConsumerGone) == (
                State::Closed,
                ActionView::Stop,
            ),
{
}

/// The first connection is attempted once: no signal leads back to the
/// state of connecting for the first time.
pub proof fn law_connecting_is_never_reentered(reconnect: bool, state: State, signal: SignalView)
    requires
        state != State::Connecting,
    ensures
        next(reconnect, state, signal).0 != State::Connecting,
{
}

/// Once closed, the supervisor stays closed: whatever signals come, it asks
/// for nothing but to stop, and delivers nothing.
pub proof fn law_closed_is_final(reconnect: bool, signals: Seq<SignalView>)
    ensures
        run(reconnect, State::Closed, signals).0 == State::Closed,
        delivered(run(reconnect, State::Closed, signals).1) == Seq::<ItemView>::empty(),
        forall|i: int|
            0 <= i < run(reconnect, State::Closed, signals).1.len() ==> run(
                reconnect,
                State::Closed,
                signals,
            ).1[i] == ActionView::Stop,
    decreases signals.len(),
{
    if signals.len() > 0 {
        law_closed_is_final(reconnect, signals.drop_first());
        let rest = run(reconnect, State::Closed, signals.drop_first()).1;
        lemma_delivered_first(ActionView::Stop, rest);
    }
}

/// Delivery: while the supervisor is active, a frame that decodes to a
/// notification or to an error is handed to the channel as exactly that, and
/// reading goes on once the channel has taken it; a frame that carries
/// nothing is skipped.
pub proof fn law_active_supervisor_delivers_frames(reconnect: bool, frame: crate::frame::FrameView)
    ensures
        match crate::frame::decode_frame(frame) {
            Ok(None) => run(reconnect, State::Active, seq![SignalView::Frame(frame)]) == (
                State::Active,
                seq![ActionView::Read],
            ),
            Ok(Some(event)) => run(
                reconnect,
                State::Active,
                seq![SignalView::Frame(frame), SignalView::Delivered],
            ) == (State::Active, seq![ActionView::Deliver(Ok(event)), ActionView::Read]),
            Err(error) => run(
                reconnect,
                State::Active,
                seq![SignalView::Frame(frame), SignalView::Delivered],
            ) == (State::Active, seq![ActionView::Deliver(Err(error)), ActionView::Read]),
        },
{
    let none = Seq::<SignalView>::empty();
    let first = SignalView::Frame(frame);
    let tail = seq![SignalView::Delivered] + none;
    assert(seq![first] =~= seq![first] + none);
    assert(seq![first, SignalView::Delivered] =~= seq![first] + tail);
    lemma_run_first(reconnect, State::Active, first, none);
    lemma_run_first(reconnect, State::Active, first, tail);
    lemma_run_first(reconnect, State::Sending(Resume::Active), SignalView::Delivered, none);
    assert(run(reconnect, State::Active, none).1 =~= Seq::<ActionView>::empty());
    match crate::frame::decode_frame(frame) {
        Ok(None) => {
            assert(seq![ActionView::Read] + Seq::<ActionView>::empty() =~= seq![ActionView::Read]);
        },
        Ok(Some(event)) => {
            assert(seq![ActionView::Deliver(Ok(event))] + (seq![ActionView::Read] + Seq::<
                ActionView,
            >::empty()) =~= seq![ActionView::Deliver(Ok(event)), ActionView::Read]);
        },
        Err(error) => {
            assert(seq![ActionView::Deliver(Err(error))] + (seq![ActionView::Read] + Seq::<
                ActionView,
            >::empty()) =~= seq![ActionView::Deliver(Err(error)), ActionView::Read]);
        },
    }
}

/// The signals of one failed attempt to connect again: the backoff passes,
/// the attempt fails, the channel takes the signal about it.
pub open spec fn failed_attempt(e: tokio_tungstenite::tungstenite::Error) -> Seq<SignalView> {
    seq![SignalView::BackoffElapsed, SignalView::ConnectFailed(e), SignalView::Delivered]
}

/// The signals of the attempt that succeeds.
pub open spec fn successful_attempt() -> Seq<SignalView> {
    seq![SignalView::BackoffElapsed, SignalView::Connected, SignalView::Delivered]
}

/// The signals of attempts that fail with the given errors, one after the
/// other, followed by one that succeeds.
pub open spec fn failures_then_success(
    errors: Seq<tokio_tungstenite::tungstenite::Error>,
) -> Seq<SignalView>
    decreases errors.len(),
{
    if errors.len() == 0 {
        successful_attempt()
    } else {
        failed_attempt(errors[0]) + failures_then_success(errors.drop_first())
    }
}

/// The signals about failed attempts, one for each error, in order.
pub open spec fn failure_items(errors: Seq<tokio_tungstenite::tungstenite::Error>) -> Seq<
    ItemView,
> {
    Seq::new(errors.len(), |i: int| reconnect_failed(errors[i]))
}

/// One failed attempt, from the state of waiting: one signal about it is
/// delivered, and the supervisor waits again.
pub proof fn lemma_failed_attempt(
    e: tokio_tungstenite::tungstenite::Error,
    rest: Seq<SignalView>,
)
    ensures
        run(true, State::Waiting, failed_attempt(e) + rest).0 == run(
            true,
            State::Waiting,
            rest,
        ).0,
        run(true, State::Waiting, failed_attempt(e) + rest).1 == seq![
            ActionView::Connect,
            ActionView::Deliver(reconnect_failed(e)),
            ActionView::Sleep(BACKOFF_SECS),
        ] + run(true, State::Waiting, rest).1,
{
    let s0 = SignalView::BackoffElapsed;
    let s1 = SignalView::ConnectFailed(e);
    let s2 = SignalView::Delivered;
    let tail2 = seq![s2] + rest;
    let tail1 = seq![s1] + tail2;
    assert(failed_attempt(e) + rest =~= seq![s0] + tail1);
    lemma_run_first(true, State::Waiting, s0, tail1);
    lemma_run_first(true, State::Reconnecting, s1, tail2);
    lemma_run_first(true, State::Sending(Resume::Waiting), s2, rest);
    let after = run(true, State::Waiting, rest).1;
    assert(seq![ActionView::Connect] + (seq![ActionView::Deliver(reconnect_failed(e))] + (seq![
        ActionView::Sleep(BACKOFF_SECS),
    ] + after)) =~= seq![
        ActionView::Connect,
        ActionView::Deliver(reconnect_failed(e)),
        ActionView::Sleep(BACKOFF_SECS),
    ] + after);
}

/// The attempt that succeeds, from the state of waiting.
pub proof fn lemma_successful_attempt()
    ensures
        run(true, State::Waiting, successful_attempt()) == (
            State::Active,
            seq![
                ActionView::Connect,
                ActionView::Deliver(reconnect_succeeded()),
                ActionView::Read,
            ],
        ),
{
    let s0 = SignalView::BackoffElapsed;
    let s1 = SignalView::Connected;
    let s2 = SignalView::Delivered;
    let none = Seq::<SignalView>::empty();
    let tail2 = seq![s2] + none;
    let tail1 = seq![s1] + tail2;
    assert(successful_attempt() =~= seq![s0] + tail1);
    lemma_run_first(true, State::Waiting, s0, tail1);
    lemma_run_first(true, State::Reconnecting, s1, tail2);
    lemma_run_first(true, State::Sending(Resume::Active), s2, none);
    assert(run(true, State::Active, none).1 =~= Seq::<ActionView>::empty());
    assert(seq![ActionView::Connect] + (seq![ActionView::Deliver(reconnect_succeeded())] + (seq![
        ActionView::Read,
    ] + Seq::<ActionView>::empty())) =~= seq![
        ActionView::Connect,
        ActionView::Deliver(reconnect_succeeded()),
        ActionView::Read,
    ]);
}

/// The items of the three actions of one attempt.
pub proof fn lemma_attempt_items(item: ItemView, last: ActionView, rest: Seq<ActionView>)
    requires
        last !is Deliver,
    ensures
        delivered(seq![ActionView::Connect, ActionView::Deliver(item), last] + rest) == seq![
            item,
        ] + delivered(rest),
{
    let a2 = seq![last] + rest;
    let a1 = seq![ActionView::Deliver(item)] + a2;
    assert(seq![ActionView::Connect, ActionView::Deliver(item), last] + rest =~= seq![
        ActionView::Connect,
    ] + a1);
    lemma_delivered_first(ActionView::Connect, a1);
    lemma_delivered_first(ActionView::Deliver(item), a2);
    lemma_delivered_first(last, rest);
}

/// Reconnection: with reconnection enabled, while the supervisor waits to
/// connect again, N attempts that fail followed by one that succeeds make
/// the stream observe exactly N signals of failure, in the order of the
/// attempts and each with its error, then one signal of success and nothing
/// else; the supervisor is then active again and asks to read from the new
/// connection.
pub proof fn law_reconnect_until_success(errors: Seq<tokio_tungstenite::tungstenite::Error>)
    ensures
        run(true, State::Waiting, failures_then_success(errors)).0 == State::Active,
        delivered(run(true, State::Waiting, failures_then_success(errors)).1) == failure_items(
            errors,
        ).push(reconnect_succeeded()),
        run(true, State::Waiting, failures_then_success(errors)).1.last() == ActionView::Read,
    decreases errors.len(),
{
    if errors.len() == 0 {
        lemma_successful_attempt();
        lemma_attempt_items(reconnect_succeeded(), ActionView::Read, Seq::empty());
        let three = seq![
            ActionView::Connect,
            ActionView::Deliver(reconnect_succeeded()),
            ActionView::Read,
        ];
        assert(three + Seq::<ActionView>::empty() =~= three);
        assert(delivered(Seq::<ActionView>::empty()) =~= Seq::<ItemView>::empty());
        assert(seq![reconnect_succeeded()] + Seq::<ItemView>::empty() =~= failure_items(
            errors,
        ).push(reconnect_succeeded()));
    } else {
        let rest = failures_then_success(errors.drop_first());
        law_reconnect_until_success(errors.drop_first());
        lemma_failed_attempt(errors[0], rest);
        let after = run(true, State::Waiting, rest).1;
        lemma_attempt_items(
            reconnect_failed(errors[0]),
            ActionView::Sleep(BACKOFF_SECS),
            after,
        );
        assert(seq![reconnect_failed(errors[0])] + failure_items(errors.drop_first()).push(
            reconnect_succeeded(),
        ) =~= failure_items(errors).push(reconnect_succeeded()));
    }
}

/// A whole outage: the supervisor is active with reconnection enabled,
/// reading fails, and N attempts fail before one succeeds. The stream
/// observes the signal that reading failed, the N signals of failure in
/// order, the signal of success, and nothing else; the supervisor is active
/// again.
pub proof fn law_outage_is_reported_in_order(
    cause: tokio_tungstenite::tungstenite::Error,
    errors: Seq<tokio_tungstenite::tungstenite::Error>,
)
    ensures
        run(
            true,
            State::Active,
            seq![SignalView::ReadFailed(cause), SignalView::Delivered] + failures_then_success(
                errors,
            ),
        ).0 == State::Active,
        delivered(
            run(
                true,
                State::Active,
                seq![SignalView::ReadFailed(cause), SignalView::Delivered]
                    + failures_then_success(errors),
            ).1,
        ) == (seq![receive_failed(cause)] + failure_items(errors)).push(reconnect_succeeded()),
{
    let rest = failures_then_success(errors);
    let tail = seq![SignalView::Delivered] + rest;
    assert(seq![SignalView::ReadFailed(cause), SignalView::Delivered] + rest =~= seq![
        SignalView::ReadFailed(cause),
    ] + tail);
    lemma_run_first(true, State::Active, SignalView::ReadFailed(cause), tail);
    lemma_run_first(true, State::Sending(Resume::Waiting), SignalView::Delivered, rest);
    law_reconnect_until_success(errors);
    let after = run(true, State::Waiting, rest).1;
    let a1 = seq![ActionView::Sleep(BACKOFF_SECS)] + after;
    lemma_delivered_first(ActionView::Deliver(receive_failed(cause)), a1);
    lemma_delivered_first(ActionView::Sleep(BACKOFF_SECS), after);
    assert(seq![receive_failed(cause)] + failure_items(errors).push(reconnect_succeeded()) =~= (
        seq![receive_failed(cause)] + failure_items(errors)).push(reconnect_succeeded()));
}

/// The item that ends the stream of a supervisor without reconnection: the
/// error that reading failed with.
pub open spec fn terminal_error(cause: tokio_tungstenite::tungstenite::Error) -> ItemView {
    Err(ClientErrorView::Tungstenite(cause))
}

/// The states that a supervisor without reconnection passes through once it
/// is active.
pub open spec fn plain_state(state: State) -> bool {
    state == State::Active || state == State::Sending(Resume::Active) || state == State::Sending(
        Resume::Closed,
    ) || state == State::Closed
}

/// Without reconnection, a supervisor that is active never attempts to
/// connect and never waits to do so, whatever signals come.
pub proof fn law_without_reconnection_no_attempt(state: State, signals: Seq<SignalView>)
    requires
        plain_state(state),
    ensures
        plain_state(run(false, state, signals).0),
        never_reconnects(run(false, state, signals).1),
    decreases signals.len(),
{
    if signals.len() > 0 {
        let (then, action) = next(false, state, signals[0]);
        law_without_reconnection_no_attempt(then, signals.drop_first());
        let rest = run(false, then, signals.drop_first()).1;
        let all = seq![action] + rest;
        assert forall|i: int| 0 <= i < all.len() implies (#[trigger] all[i]) !is Connect
            && all[i] !is Sleep by {
            if i > 0 {
                assert(all[i] == rest[i - 1]);
            }
        }
    }
}

/// Failure without reconnection: with reconnection disabled, one failure of
/// reading ends the stream. Exactly one item is delivered, the error itself;
/// once the channel has taken it the supervisor is closed, and whatever
/// signals follow, nothing more is delivered and no attempt to connect is
/// made.
pub proof fn law_failure_without_reconnection_ends_stream(
    cause: tokio_tungstenite::tungstenite::Error,
    later: Seq<SignalView>,
)
    ensures
        run(
            false,
            State::Active,
            seq![SignalView::ReadFailed(cause), SignalView::Delivered] + later,
        ).0 == State::Closed,
        delivered(
            run(
                false,
                State::Active,
                seq![SignalView::ReadFailed(cause), SignalView::Delivered] + later,
            ).1,
        ) == seq![terminal_error(cause)],
        never_reconnects(
            run(
                false,
                State::Active,
                seq![SignalView::ReadFailed(cause), SignalView::Delivered] + later,
            ).1,
        ),
{
    let all = seq![SignalView::ReadFailed(cause), SignalView::Delivered] + later;
    let tail = seq![SignalView::Delivered] + later;
    assert(all =~= seq![SignalView::ReadFailed(cause)] + tail);
    lemma_run_first(false, State::Active, SignalView::ReadFailed(cause), tail);
    lemma_run_first(false, State::Sending(Resume::Closed), SignalView::Delivered, later);
    law_closed_is_final(false, later);
    law_without_reconnection_no_attempt(State::Active, all);
    let after = run(false, State::Closed, later).1;
    let item = terminal_error(cause);
    let a1 = seq![ActionView::Stop] + after;
    lemma_delivered_first(ActionView::Deliver(item), a1);
    lemma_delivered_first(ActionView::Stop, after);
    assert(seq![item] + Seq::<ItemView>::empty() =~= seq![item]);
}

} // verus!
