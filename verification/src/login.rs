//! The shared login counter of the PKCS#11 provider.
//!
//! All sessions of one provider share the token's authentication state: a
//! counter tracks how many live sessions currently require it, so that the
//! token's login primitive runs exactly when the counter rises from zero and
//! its logout primitive exactly when it falls back to zero. This module
//! defines the transition functions the session code is proved against, and
//! the laws that hold across any interleaving of logins and logouts.

use vstd::prelude::*;

verus! {

/// Whether a login by a session in the given state reaches the token's
/// login primitive: only the first session to require authentication, and
/// only when a user PIN is configured.
pub open spec fn login_calls_token(counter: nat, marked: bool, has_pin: bool) -> bool {
    !marked && counter == 0 && has_pin
}

/// The counter after a login. `token_ok` is what the token answered when it
/// was called; it is irrelevant to the cases that never call the token.
pub open spec fn login_counter_after(counter: nat, marked: bool, has_pin: bool, token_ok: bool) -> nat {
    if marked {
        counter
    } else if counter > 0 {
        counter + 1
    } else if has_pin {
        if token_ok {
            1
        } else {
            0
        }
    } else {
        counter
    }
}

/// Whether the session is marked logged-in after a login.
pub open spec fn login_marked_after(counter: nat, marked: bool, has_pin: bool, token_ok: bool) -> bool {
    if marked {
        true
    } else if counter > 0 {
        true
    } else if has_pin {
        token_ok
    } else {
        true
    }
}

/// Whether a login succeeds: always, except when the token refuses the one
/// call that reaches it.
pub open spec fn login_ok(counter: nat, marked: bool, has_pin: bool, token_ok: bool) -> bool {
    !(login_calls_token(counter, marked, has_pin) && !token_ok)
}

/// Whether a logout by a session in the given state reaches the token's
/// logout primitive: only the last session to give authentication up.
pub open spec fn logout_calls_token(counter: nat, marked: bool) -> bool {
    marked && counter == 1
}

/// The counter after a logout.
pub open spec fn logout_counter_after(counter: nat, marked: bool, token_ok: bool) -> nat {
    if !marked || counter == 0 {
        counter
    } else if counter == 1 {
        if token_ok {
            0
        } else {
            1
        }
    } else {
        (counter - 1) as nat
    }
}

/// Whether the session is still marked logged-in after a logout.
pub open spec fn logout_marked_after(counter: nat, marked: bool, token_ok: bool) -> bool {
    if !marked || counter == 0 {
        marked
    } else if counter == 1 {
        !token_ok
    } else {
        false
    }
}

/// Whether a logout succeeds: always, except when the token refuses the one
/// call that reaches it.
pub open spec fn logout_ok(counter: nat, marked: bool, token_ok: bool) -> bool {
    !(logout_calls_token(counter, marked) && !token_ok)
}

/// How many sessions of a group are marked logged-in.
pub open spec fn count_marked(flags: Seq<bool>) -> nat
    decreases flags.len(),
{
    if flags.len() == 0 {
        0
    } else {
        count_marked(flags.drop_last()) + (if flags.last() {
            1nat
        } else {
            0nat
        })
    }
}

/// Flipping one flag changes the count by exactly one.
pub proof fn lemma_count_marked_update(flags: Seq<bool>, i: int, v: bool)
    requires
        0 <= i < flags.len(),
        flags[i] != v,
    ensures
        v ==> count_marked(flags.update(i, v)) == count_marked(flags) + 1,
        !v ==> count_marked(flags) > 0 && count_marked(flags.update(i, v)) == count_marked(flags)
            - 1,
    decreases flags.len(),
{
    if i == flags.len() - 1 {
        assert(flags.update(i, v).drop_last() =~= flags.drop_last());
    } else {
        assert(flags.update(i, v).drop_last() =~= flags.drop_last().update(i, v));
        lemma_count_marked_update(flags.drop_last(), i, v);
    }
}

/// Law of the login counter, first half: when a PIN is configured, the
/// counter equals the number of sessions currently marked logged-in, and
/// every login by session `i` preserves that, whatever the token answered.
pub proof fn lemma_login_preserves_counter(
    counter: nat,
    flags: Seq<bool>,
    i: int,
    token_ok: bool,
)
    requires
        0 <= i < flags.len(),
        counter == count_marked(flags),
    ensures
        login_counter_after(counter, flags[i], true, token_ok) == count_marked(
            flags.update(i, login_marked_after(counter, flags[i], true, token_ok)),
        ),
{
    let marked = flags[i];
    let m2 = login_marked_after(counter, marked, true, token_ok);
    if marked == m2 {
        assert(flags.update(i, m2) =~= flags);
    } else {
        lemma_count_marked_update(flags, i, m2);
    }
}

/// Law of the login counter, second half: every logout by session `i`
/// preserves the counter/marked correspondence, whatever the token answered.
pub proof fn lemma_logout_preserves_counter(
    counter: nat,
    flags: Seq<bool>,
    i: int,
    token_ok: bool,
)
    requires
        0 <= i < flags.len(),
        counter == count_marked(flags),
    ensures
        logout_counter_after(counter, flags[i], token_ok) == count_marked(
            flags.update(i, logout_marked_after(counter, flags[i], token_ok)),
        ),
{
    let marked = flags[i];
    let m2 = logout_marked_after(counter, marked, token_ok);
    if marked == m2 {
        assert(flags.update(i, m2) =~= flags);
    } else {
        lemma_count_marked_update(flags, i, m2);
    }
}

/// Law of the token calls: with a PIN configured, a successful login drives
/// the token's login primitive exactly when the counter rises from zero, and
/// a successful logout drives the token's logout primitive exactly when the
/// counter falls to zero.
pub proof fn lemma_token_calls_at_transitions(counter: nat, marked: bool, token_ok: bool)
    ensures
        login_ok(counter, marked, true, token_ok) ==> (login_calls_token(counter, marked, true)
            <==> (counter == 0 && login_counter_after(counter, marked, true, token_ok) == 1)),
        logout_ok(counter, marked, token_ok) ==> (logout_calls_token(counter, marked) <==> (
        counter == 1 && logout_counter_after(counter, marked, token_ok) == 0)),
{
}


/// One login or logout by one session of a group, with what the token
/// answered where the call reached it.
pub struct CounterEvent {
    pub session: int,
    pub is_login: bool,
    pub token_ok: bool,
}

/// The counter and the marks after one event, with a PIN configured.
pub open spec fn step_counter(counter: nat, flags: Seq<bool>, e: CounterEvent) -> (nat, Seq<bool>) {
    if e.is_login {
        (
            login_counter_after(counter, flags[e.session], true, e.token_ok),
            flags.update(e.session, login_marked_after(counter, flags[e.session], true, e.token_ok)),
        )
    } else {
        (
            logout_counter_after(counter, flags[e.session], e.token_ok),
            flags.update(e.session, logout_marked_after(counter, flags[e.session], e.token_ok)),
        )
    }
}

/// The counter and the marks after a whole interleaving of events.
pub open spec fn run_counter(counter: nat, flags: Seq<bool>, events: Seq<CounterEvent>) -> (
    nat,
    Seq<bool>,
)
    decreases events.len(),
{
    if events.len() == 0 {
        (counter, flags)
    } else {
        let stepped = step_counter(counter, flags, events[0]);
        run_counter(stepped.0, stepped.1, events.drop_first())
    }
}

/// Law of the login counter over whole histories: with a PIN configured,
/// across any interleaving of logins and logouts by any sessions of the
/// group, and whatever the token answered at each step, the counter equals
/// the number of sessions currently marked logged-in.
pub proof fn lemma_counter_matches_marked(counter: nat, flags: Seq<bool>, events: Seq<CounterEvent>)
    requires
        counter == count_marked(flags),
        forall|i: int|
            0 <= i < events.len() ==> 0 <= (#[trigger] events[i]).session < flags.len(),
    ensures
        run_counter(counter, flags, events).1.len() == flags.len(),
        run_counter(counter, flags, events).0 == count_marked(run_counter(counter, flags, events).1),
    decreases events.len(),
{
    if events.len() > 0 {
        let e = events[0];
        let stepped = step_counter(counter, flags, e);
        if e.is_login {
            lemma_login_preserves_counter(counter, flags, e.session, e.token_ok);
        } else {
            lemma_logout_preserves_counter(counter, flags, e.session, e.token_ok);
        }
        assert(forall|i: int|
            0 <= i < events.drop_first().len() ==> (#[trigger] events.drop_first()[i]) == events[i
                + 1]);
        lemma_counter_matches_marked(stepped.0, stepped.1, events.drop_first());
    }
}

} // verus!
