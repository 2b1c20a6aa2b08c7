//! Whole requests: what the client asks for, from `Signal::Begin` to
//! `Action::Finish`, against a gateway that answers in a given way.
//!
//! The gateway is modelled by two functions. `attempts(n, token)` is what the
//! attempt numbered `n` comes to when it carries `token`, and `exchanges(n)`
//! is what the credential exchange numbered `n` comes to. Both count from 0.
//! The laws below hold for every such gateway.

use crate::client::{
    exchange_of, granted, next, settled, ActionView, Attempted, ClientView, Exchanged, Signal, Stage,
};
use crate::error::HashGateError;
use crate::http::UNAUTHORIZED;
use vstd::prelude::*;

verus! {

/// The course of a request.
pub struct Run<R> {
    /// The actions that the client asked for, in order.
    pub actions: Seq<ActionView<R>>,
    /// How many of them are attempts.
    pub attempts: nat,
    /// How many of them are credential exchanges.
    pub exchanges: nat,
    /// The client afterwards.
    pub client: ClientView,
}

/// The course of a request from a given stage and signal on, where `sent`
/// attempts and `exchanged` credential exchanges were made before, and at
/// most `steps` steps are taken.
pub open spec fn run_from<R>(
    client: ClientView,
    stage: Stage,
    signal: Signal<R>,
    attempts: spec_fn(nat, Seq<char>) -> Attempted<R>,
    exchanges: spec_fn(nat) -> Exchanged,
    sent: nat,
    exchanged: nat,
    steps: nat,
) -> Run<R>
    decreases steps,
{
    if steps == 0 {
        Run { actions: Seq::empty(), attempts: 0, exchanges: 0, client }
    } else {
        let step = next(client, stage, signal);
        match step.2 {
            ActionView::Attempt { token } => {
                let rest = run_from(
                    step.0,
                    step.1,
                    Signal::Attempted(attempts(sent, token)),
                    attempts,
                    exchanges,
                    sent + 1,
                    exchanged,
                    (steps - 1) as nat,
                );
                Run {
                    actions: seq![step.2] + rest.actions,
                    attempts: rest.attempts + 1,
                    exchanges: rest.exchanges,
                    client: rest.client,
                }
            },
            ActionView::Authenticate { .. } => {
                let rest = run_from(
                    step.0,
                    step.1,
                    Signal::Exchanged(exchanges(exchanged)),
                    attempts,
                    exchanges,
                    sent,
                    exchanged + 1,
                    (steps - 1) as nat,
                );
                Run {
                    actions: seq![step.2] + rest.actions,
                    attempts: rest.attempts,
                    exchanges: rest.exchanges + 1,
                    client: rest.client,
                }
            },
            ActionView::Finish(_) => Run {
                actions: seq![step.2],
                attempts: 0,
                exchanges: 0,
                client: step.0,
            },
        }
    }
}

/// How many of the actions are attempts.
pub open spec fn attempts_in<R>(actions: Seq<ActionView<R>>) -> nat
    decreases actions.len(),
{
    if actions.len() == 0 {
        0
    } else if actions[0] is Attempt {
        1 + attempts_in(actions.skip(1))
    } else {
        attempts_in(actions.skip(1))
    }
}

/// How many of the actions are credential exchanges.
pub open spec fn exchanges_in<R>(actions: Seq<ActionView<R>>) -> nat
    decreases actions.len(),
{
    if actions.len() == 0 {
        0
    } else if actions[0] is Authenticate {
        1 + exchanges_in(actions.skip(1))
    } else {
        exchanges_in(actions.skip(1))
    }
}

/// The course of a request from its beginning, cut off after `steps` steps.
pub open spec fn run<R>(
    client: ClientView,
    attempts: spec_fn(nat, Seq<char>) -> Attempted<R>,
    exchanges: spec_fn(nat) -> Exchanged,
    steps: nat,
) -> Run<R> {
    run_from(client, Stage::Ready, Signal::Begin, attempts, exchanges, 0, 0, steps)
}

/// The two counts of a run are the counts of its actions.
pub proof fn law_counts_are_of_the_actions<R>(
    client: ClientView,
    stage: Stage,
    signal: Signal<R>,
    attempts: spec_fn(nat, Seq<char>) -> Attempted<R>,
    exchanges: spec_fn(nat) -> Exchanged,
    sent: nat,
    exchanged: nat,
    steps: nat,
)
    ensures
        run_from(client, stage, signal, attempts, exchanges, sent, exchanged, steps).attempts
            == attempts_in(
            run_from(client, stage, signal, attempts, exchanges, sent, exchanged, steps).actions,
        ),
        run_from(client, stage, signal, attempts, exchanges, sent, exchanged, steps).exchanges
            == exchanges_in(
            run_from(client, stage, signal, attempts, exchanges, sent, exchanged, steps).actions,
        ),
    decreases steps,
{
    let whole = run_from(client, stage, signal, attempts, exchanges, sent, exchanged, steps);
    reveal_with_fuel(attempts_in, 2);
    reveal_with_fuel(exchanges_in, 2);
    if steps > 0 {
        let step = next(client, stage, signal);
        match step.2 {
            ActionView::Attempt { token } => {
                let reply = Signal::Attempted(attempts(sent, token));
                let rest = run_from(
                    step.0,
                    step.1,
                    reply,
                    attempts,
                    exchanges,
                    sent + 1,
                    exchanged,
                    (steps - 1) as nat,
                );
                law_counts_are_of_the_actions(
                    step.0,
                    step.1,
                    reply,
                    attempts,
                    exchanges,
                    sent + 1,
                    exchanged,
                    (steps - 1) as nat,
                );
                assert(whole.actions.skip(1) =~= rest.actions);
            },
            ActionView::Authenticate { .. } => {
                let reply = Signal::<R>::Exchanged(exchanges(exchanged));
                let rest = run_from(
                    step.0,
                    step.1,
                    reply,
                    attempts,
                    exchanges,
                    sent,
                    exchanged + 1,
                    (steps - 1) as nat,
                );
                law_counts_are_of_the_actions(
                    step.0,
                    step.1,
                    reply,
                    attempts,
                    exchanges,
                    sent,
                    exchanged + 1,
                    (steps - 1) as nat,
                );
                assert(whole.actions.skip(1) =~= rest.actions);
            },
            ActionView::Finish(_) => {
                assert(whole.actions.skip(1) =~= Seq::<ActionView<R>>::empty());
            },
        }
    }
}

/// Without a token a request fails with `NoClientToken`, and nothing is
/// sent: no attempt, no credential exchange.
pub proof fn law_no_token_sends_nothing<R>(
    client: ClientView,
    attempts: spec_fn(nat, Seq<char>) -> Attempted<R>,
    exchanges: spec_fn(nat) -> Exchanged,
    steps: nat,
)
    requires
        client.token is None,
        steps >= 1,
    ensures
        run(client, attempts, exchanges, steps).actions == seq![
            ActionView::<R>::Finish(Err(HashGateError::NoClientToken)),
        ],
        run(client, attempts, exchanges, steps).attempts == 0,
        run(client, attempts, exchanges, steps).exchanges == 0,
        run(client, attempts, exchanges, steps).client == client,
{
    reveal_with_fuel(run_from, 2);
}

/// With a token, a first attempt that the gateway does not answer with 401
/// is the only one: its outcome is the request's, no credential exchange is
/// made, and the client keeps its token.
pub proof fn law_single_attempt<R>(
    client: ClientView,
    attempts: spec_fn(nat, Seq<char>) -> Attempted<R>,
    exchanges: spec_fn(nat) -> Exchanged,
    steps: nat,
)
    requires
        client.token is Some,
        !(attempts(0, client.token->0) matches Ok(reply) && reply.status == UNAUTHORIZED),
        steps >= 2,
    ensures
        run(client, attempts, exchanges, steps).actions == seq![
            ActionView::<R>::Attempt { token: client.token->0 },
            ActionView::Finish(settled(attempts(0, client.token->0))),
        ],
        run(client, attempts, exchanges, steps).attempts == 1,
        run(client, attempts, exchanges, steps).exchanges == 0,
        run(client, attempts, exchanges, steps).client == client,
{
    reveal_with_fuel(run_from, 3);
    let r = run(client, attempts, exchanges, steps);
    assert(r.actions =~= seq![
        ActionView::<R>::Attempt { token: client.token->0 },
        ActionView::Finish(settled(attempts(0, client.token->0))),
    ]);
}

/// After a 401 on the first attempt and a credential exchange that grants a
/// token, the client holds the new token, exactly one credential exchange and
/// exactly two attempts were made, the second with the new token, and the
/// outcome of the second attempt is the request's, whatever its status.
pub proof fn law_refresh_then_retry_once<R>(
    client: ClientView,
    attempts: spec_fn(nat, Seq<char>) -> Attempted<R>,
    exchanges: spec_fn(nat) -> Exchanged,
    steps: nat,
)
    requires
        client.token is Some,
        attempts(0, client.token->0) matches Ok(reply) && reply.status == UNAUTHORIZED,
        granted(exchanges(0)) is Ok,
        steps >= 4,
    ensures
        run(client, attempts, exchanges, steps).actions == seq![
            ActionView::<R>::Attempt { token: client.token->0 },
            exchange_of::<R>(client),
            ActionView::Attempt { token: granted(exchanges(0))->Ok_0 },
            ActionView::Finish(settled(attempts(1, granted(exchanges(0))->Ok_0))),
        ],
        run(client, attempts, exchanges, steps).attempts == 2,
        run(client, attempts, exchanges, steps).exchanges == 1,
        run(client, attempts, exchanges, steps).client == (ClientView {
            token: Some(granted(exchanges(0))->Ok_0),
            ..client
        }),
{
    reveal_with_fuel(run_from, 5);
    let r = run(client, attempts, exchanges, steps);
    assert(r.actions =~= seq![
        ActionView::<R>::Attempt { token: client.token->0 },
        exchange_of::<R>(client),
        ActionView::Attempt { token: granted(exchanges(0))->Ok_0 },
        ActionView::Finish(settled(attempts(1, granted(exchanges(0))->Ok_0))),
    ]);
}

/// A second 401, after the token was renewed, is handed to the caller as it
/// is: the request ends with that reply, however many steps it is given, and
/// no third attempt is made.
pub proof fn law_second_unauthorized_is_final<R>(
    client: ClientView,
    attempts: spec_fn(nat, Seq<char>) -> Attempted<R>,
    exchanges: spec_fn(nat) -> Exchanged,
    steps: nat,
)
    requires
        client.token is Some,
        attempts(0, client.token->0) matches Ok(reply) && reply.status == UNAUTHORIZED,
        granted(exchanges(0)) is Ok,
        attempts(1, granted(exchanges(0))->Ok_0) matches Ok(reply) && reply.status
            == UNAUTHORIZED,
        steps >= 4,
    ensures
        run(client, attempts, exchanges, steps).actions.len() == 4,
        run(client, attempts, exchanges, steps).actions.last() == ActionView::Finish(
            Ok(attempts(1, granted(exchanges(0))->Ok_0)->Ok_0),
        ),
        run(client, attempts, exchanges, steps).attempts == 2,
        run(client, attempts, exchanges, steps).exchanges == 1,
{
    law_refresh_then_retry_once(client, attempts, exchanges, steps);
}

/// Where the credential exchange after a 401 grants no token, its error is
/// the request's, not the 401; no second attempt is made and the client is
/// unchanged.
pub proof fn law_failed_refresh_is_final<R>(
    client: ClientView,
    attempts: spec_fn(nat, Seq<char>) -> Attempted<R>,
    exchanges: spec_fn(nat) -> Exchanged,
    steps: nat,
)
    requires
        client.token is Some,
        attempts(0, client.token->0) matches Ok(reply) && reply.status == UNAUTHORIZED,
        granted(exchanges(0)) is Err,
        steps >= 3,
    ensures
        run(client, attempts, exchanges, steps).actions == seq![
            ActionView::<R>::Attempt { token: client.token->0 },
            exchange_of::<R>(client),
            ActionView::Finish(Err(granted(exchanges(0))->Err_0)),
        ],
        run(client, attempts, exchanges, steps).attempts == 1,
        run(client, attempts, exchanges, steps).exchanges == 1,
        run(client, attempts, exchanges, steps).client == client,
{
    reveal_with_fuel(run_from, 4);
    let r = run(client, attempts, exchanges, steps);
    assert(r.actions =~= seq![
        ActionView::<R>::Attempt { token: client.token->0 },
        exchange_of::<R>(client),
        ActionView::Finish(Err(granted(exchanges(0))->Err_0)),
    ]);
}

/// A request changes nothing of a client but its token, changes the token
/// only through a credential exchange, and never takes the token away.
pub proof fn law_only_the_token_changes<R>(
    client: ClientView,
    attempts: spec_fn(nat, Seq<char>) -> Attempted<R>,
    exchanges: spec_fn(nat) -> Exchanged,
    steps: nat,
)
    ensures
        run(client, attempts, exchanges, steps).client.client_id == client.client_id,
        run(client, attempts, exchanges, steps).client.client_secret == client.client_secret,
        run(client, attempts, exchanges, steps).client.url_base == client.url_base,
        run(client, attempts, exchanges, steps).exchanges == 0 ==> run(
            client,
            attempts,
            exchanges,
            steps,
        ).client == client,
        client.token is Some ==> run(client, attempts, exchanges, steps).client.token is Some,
{
    reveal_with_fuel(run_from, 6);
}

/// Whatever the gateway answers, a request takes at most four steps, with at
/// most two attempts and at most one credential exchange, and given four
/// steps it ends with `Finish`.
pub proof fn law_bounded<R>(
    client: ClientView,
    attempts: spec_fn(nat, Seq<char>) -> Attempted<R>,
    exchanges: spec_fn(nat) -> Exchanged,
    steps: nat,
)
    ensures
        run(client, attempts, exchanges, steps).actions.len() <= 4,
        run(client, attempts, exchanges, steps).attempts <= 2,
        run(client, attempts, exchanges, steps).exchanges <= 1,
        steps >= 4 ==> run(client, attempts, exchanges, steps).actions.last() is Finish,
{
    reveal_with_fuel(run_from, 6);
}

} // verus!
