use vstd::prelude::*;

use crate::account::{display_update_of, is_stale, new_user_of, AccountStatus, LocalUser, ProviderProfile};
use crate::reconcile::{on_found, transition, Action, CallbackError, Event, InsertError, Login};

verus! {

/// The state reached and the actions asked for when the events arrive in order.
pub open spec fn run(s: Login, events: Seq<Event>) -> (Login, Seq<Action>)
    decreases events.len(),
{
    if events.len() == 0 {
        (s, Seq::empty())
    } else {
        let (next, a) = transition(s, events[0]);
        let (last, rest) = run(next, events.drop_first());
        (last, seq![a] + rest)
    }
}

/// An action that writes to the store.
pub open spec fn is_write(a: Action) -> bool {
    a is InsertUser || a is UpdateUser
}

/// No action of the sequence writes to the store.
pub open spec fn no_writes(actions: Seq<Action>) -> bool {
    forall|i: int| 0 <= i < actions.len() ==> !is_write(#[trigger] actions[i])
}

/// How many inserts the actions ask for.
pub open spec fn insert_count(actions: Seq<Action>) -> nat
    decreases actions.len(),
{
    if actions.len() == 0 {
        0
    } else {
        (if actions[0] is InsertUser { 1nat } else { 0nat }) + insert_count(actions.drop_first())
    }
}

/// States from which the callback may still insert an account.
pub open spec fn may_insert(s: Login) -> bool {
    match s {
        Login::AwaitToken => true,
        Login::AwaitProfile { .. } => true,
        Login::AwaitLookup { after_conflict, .. } => !after_conflict,
        Login::AwaitEmail { .. } => true,
        _ => false,
    }
}

proof fn lemma_prepend(a: Action, rest: Seq<Action>)
    ensures
        (seq![a] + rest).drop_first() == rest,
        (seq![a] + rest)[0] == a,
        insert_count(seq![a] + rest) == (if a is InsertUser { 1nat } else { 0nat }) + insert_count(rest),
{
    assert((seq![a] + rest).drop_first() =~= rest);
}

proof fn lemma_insert_count_bound(s: Login, events: Seq<Event>)
    ensures
        insert_count(run(s, events).1) <= (if may_insert(s) { 1nat } else { 0nat }),
    decreases events.len(),
{
    if events.len() > 0 {
        let (next, a) = transition(s, events[0]);
        lemma_insert_count_bound(next, events.drop_first());
        lemma_prepend(a, run(next, events.drop_first()).1);
        assert(a is InsertUser ==> may_insert(s) && !may_insert(next));
        assert(!may_insert(s) ==> !may_insert(next));
    }
}

proof fn lemma_inserts_active(s: Login, events: Seq<Event>)
    ensures
        forall|i: int|
            0 <= i < run(s, events).1.len() && (#[trigger] run(s, events).1[i]) is InsertUser
                ==> run(s, events).1[i]->InsertUser_0.status == AccountStatus::Active,
    decreases events.len(),
{
    if events.len() > 0 {
        let (next, a) = transition(s, events[0]);
        let rest = run(next, events.drop_first()).1;
        lemma_inserts_active(next, events.drop_first());
        let all = run(s, events).1;
        assert(all == seq![a] + rest);
        assert forall|i: int| 0 <= i < all.len() && (#[trigger] all[i]) is InsertUser implies all[i]->InsertUser_0.status
            == AccountStatus::Active by {
            if i > 0 {
                assert(all[i] == rest[i - 1]);
            }
        }
    }
}

/// An ended callback stays ended and asks for nothing more.
pub proof fn lemma_finished_is_final(s: Login, events: Seq<Event>)
    requires
        s is Done || s is Failed,
    ensures
        run(s, events).0 == s,
        forall|i: int| 0 <= i < events.len() ==> #[trigger] run(s, events).1[i] is Ignore,
        run(s, events).1.len() == events.len(),
        no_writes(run(s, events).1),
    decreases events.len(),
{
    if events.len() > 0 {
        let rest = run(s, events.drop_first()).1;
        lemma_finished_is_final(s, events.drop_first());
        let all = run(s, events).1;
        assert(all == seq![Action::Ignore] + rest);
        assert forall|i: int| 0 <= i < events.len() implies #[trigger] all[i] is Ignore by {
            if i > 0 {
                assert(all[i] == rest[i - 1]);
            }
        }
    }
}

/// Race safety: whatever the provider and the store answer, and in whatever
/// order, one callback asks for at most one insert, and every insert it asks
/// for is of an active account.
pub proof fn lemma_at_most_one_insert(events: Seq<Event>)
    ensures
        insert_count(run(Login::AwaitToken, events).1) <= 1,
        forall|i: int|
            0 <= i < run(Login::AwaitToken, events).1.len() && (#[trigger] run(
                Login::AwaitToken,
                events,
            ).1[i]) is InsertUser ==> run(Login::AwaitToken, events).1[i]->InsertUser_0.status
                == AccountStatus::Active,
{
    lemma_insert_count_bound(Login::AwaitToken, events);
    lemma_inserts_active(Login::AwaitToken, events);
}

/// A first login for an unknown handle fetches the email, inserts one active
/// account with the provider's fields, and returns the inserted row.
pub proof fn lemma_first_login(token: String, profile: ProviderProfile, email: String, row: LocalUser)
    ensures
        run(
            Login::AwaitLookup { token, profile, after_conflict: false },
            seq![Event::UserFound(Ok(None)), Event::EmailFetched(Ok(email)), Event::UserInserted(Ok(row))],
        ) == (
            Login::Done,
            seq![
                Action::FetchEmail(token),
                Action::InsertUser(new_user_of(profile, email)),
                Action::Finish(row, token),
            ],
        ),
        new_user_of(profile, email).status == AccountStatus::Active,
{
    let s0 = Login::AwaitLookup { token, profile, after_conflict: false };
    let s1 = Login::AwaitEmail { token, profile };
    let s2 = Login::AwaitInsert { token, profile };
    let e3 = seq![Event::UserInserted(Ok(row))];
    let e2 = seq![Event::EmailFetched(Ok(email))] + e3;
    let e1 = seq![Event::UserFound(Ok(None))] + e2;
    assert(e1.drop_first() =~= e2);
    assert(e2.drop_first() =~= e3);
    assert(e3.drop_first() =~= Seq::<Event>::empty());
    assert(e1[0] == Event::UserFound(Ok(None)));
    assert(e2[0] == Event::EmailFetched(Ok(email)));
    lemma_run_step(s2, e3);
    lemma_run_step(s1, e2);
    lemma_run_step(s0, e1);
    assert(run(Login::Done, Seq::<Event>::empty()).1 =~= Seq::<Action>::empty());
    assert(e1 =~= seq![Event::UserFound(Ok(None)), Event::EmailFetched(Ok(email)), Event::UserInserted(Ok(row))]);
    assert(run(s0, e1).1 =~= seq![
        Action::FetchEmail(token),
        Action::InsertUser(new_user_of(profile, email)),
        Action::Finish(row, token),
    ]);
}

/// A first login that loses the creation race to a concurrent one reads the
/// winning row back and treats it as an existing account: no second insert,
/// and no failure when that row is active and current.
pub proof fn lemma_lost_race(token: String, profile: ProviderProfile, email: String, winner: LocalUser)
    ensures
        run(
            Login::AwaitLookup { token, profile, after_conflict: false },
            seq![
                Event::UserFound(Ok(None)),
                Event::EmailFetched(Ok(email)),
                Event::UserInserted(Err(InsertError::Conflict)),
                Event::UserFound(Ok(Some(winner))),
            ],
        ) == (
            on_found(token, profile, winner).0,
            seq![
                Action::FetchEmail(token),
                Action::InsertUser(new_user_of(profile, email)),
                Action::FindUser(profile.user_name),
                on_found(token, profile, winner).1,
            ],
        ),
        winner.status == AccountStatus::Active && !is_stale(winner, profile) ==> on_found(
            token,
            profile,
            winner,
        ) == (Login::Done, Action::Finish(winner, token)),
{
    let s0 = Login::AwaitLookup { token, profile, after_conflict: false };
    let s1 = Login::AwaitEmail { token, profile };
    let s2 = Login::AwaitInsert { token, profile };
    let s3 = Login::AwaitLookup { token, profile, after_conflict: true };
    let e4 = seq![Event::UserFound(Ok(Some(winner)))];
    let e3 = seq![Event::UserInserted(Err(InsertError::Conflict))] + e4;
    let e2 = seq![Event::EmailFetched(Ok(email))] + e3;
    let e1 = seq![Event::UserFound(Ok(None))] + e2;
    assert(e1.drop_first() =~= e2);
    assert(e2.drop_first() =~= e3);
    assert(e3.drop_first() =~= e4);
    assert(e4.drop_first() =~= Seq::<Event>::empty());
    lemma_run_step(s3, e4);
    lemma_run_step(s2, e3);
    lemma_run_step(s1, e2);
    lemma_run_step(s0, e1);
    assert(run(on_found(token, profile, winner).0, Seq::<Event>::empty()).1 =~= Seq::<Action>::empty());
    assert(e1 =~= seq![
        Event::UserFound(Ok(None)),
        Event::EmailFetched(Ok(email)),
        Event::UserInserted(Err(InsertError::Conflict)),
        Event::UserFound(Ok(Some(winner))),
    ]);
    assert(run(s0, e1).1 =~= seq![
        Action::FetchEmail(token),
        Action::InsertUser(new_user_of(profile, email)),
        Action::FindUser(profile.user_name),
        on_found(token, profile, winner).1,
    ]);
}

proof fn lemma_ends_after_first(s: Login, first: Event, events: Seq<Event>)
    requires
        transition(s, first).0 is Done || transition(s, first).0 is Failed,
        !is_write(transition(s, first).1),
    ensures
        run(s, seq![first] + events).0 == transition(s, first).0,
        run(s, seq![first] + events).1[0] == transition(s, first).1,
        no_writes(run(s, seq![first] + events).1),
{
    let all = seq![first] + events;
    assert(all.drop_first() =~= events);
    lemma_run_step(s, all);
    let next = transition(s, first).0;
    lemma_finished_is_final(next, events);
    let rest = run(next, events).1;
    let acts = run(s, all).1;
    assert(acts == seq![transition(s, first).1] + rest);
    assert forall|i: int| 0 <= i < acts.len() implies !is_write(#[trigger] acts[i]) by {
        if i > 0 {
            assert(acts[i] == rest[i - 1]);
        }
    }
}

/// An active account whose display fields match the provider's is returned
/// as stored, and the callback writes nothing, whatever comes after.
pub proof fn lemma_current_account_unchanged(
    token: String,
    profile: ProviderProfile,
    after_conflict: bool,
    user: LocalUser,
    events: Seq<Event>,
)
    requires
        user.status == AccountStatus::Active,
        !is_stale(user, profile),
    ensures
        run(
            Login::AwaitLookup { token, profile, after_conflict },
            seq![Event::UserFound(Ok(Some(user)))] + events,
        ).0 == Login::Done,
        run(
            Login::AwaitLookup { token, profile, after_conflict },
            seq![Event::UserFound(Ok(Some(user)))] + events,
        ).1[0] == Action::Finish(user, token),
        no_writes(
            run(
                Login::AwaitLookup { token, profile, after_conflict },
                seq![Event::UserFound(Ok(Some(user)))] + events,
            ).1,
        ),
{
    lemma_ends_after_first(
        Login::AwaitLookup { token, profile, after_conflict },
        Event::UserFound(Ok(Some(user))),
        events,
    );
}

/// An account that is not active is refused, and nothing is written, however
/// its stored fields compare with the provider's and whatever comes after.
pub proof fn lemma_inactive_account_refused(
    token: String,
    profile: ProviderProfile,
    after_conflict: bool,
    user: LocalUser,
    events: Seq<Event>,
)
    requires
        user.status != AccountStatus::Active,
    ensures
        run(
            Login::AwaitLookup { token, profile, after_conflict },
            seq![Event::UserFound(Ok(Some(user)))] + events,
        ).0 == Login::Failed,
        run(
            Login::AwaitLookup { token, profile, after_conflict },
            seq![Event::UserFound(Ok(Some(user)))] + events,
        ).1[0] == Action::Fail(CallbackError::Unauthorized(user)),
        no_writes(
            run(
                Login::AwaitLookup { token, profile, after_conflict },
                seq![Event::UserFound(Ok(Some(user)))] + events,
            ).1,
        ),
{
    lemma_ends_after_first(
        Login::AwaitLookup { token, profile, after_conflict },
        Event::UserFound(Ok(Some(user))),
        events,
    );
}

/// An active account whose name or avatar drifted gets both fields written
/// from the provider's profile, and the row the store returns is the result.
pub proof fn lemma_stale_account_updated(
    token: String,
    profile: ProviderProfile,
    after_conflict: bool,
    user: LocalUser,
    row: LocalUser,
)
    requires
        user.status == AccountStatus::Active,
        is_stale(user, profile),
    ensures
        run(
            Login::AwaitLookup { token, profile, after_conflict },
            seq![Event::UserFound(Ok(Some(user))), Event::UserUpdated(Ok(row))],
        ) == (
            Login::Done,
            seq![Action::UpdateUser(display_update_of(profile)), Action::Finish(row, token)],
        ),
        display_update_of(profile).user_name == profile.user_name,
        display_update_of(profile).name == profile.name,
        display_update_of(profile).avatar_url == profile.avatar_url,
{
    let s0 = Login::AwaitLookup { token, profile, after_conflict };
    let s1 = Login::AwaitUpdate { token };
    let e2 = seq![Event::UserUpdated(Ok(row))];
    let e1 = seq![Event::UserFound(Ok(Some(user)))] + e2;
    assert(e1.drop_first() =~= e2);
    assert(e2.drop_first() =~= Seq::<Event>::empty());
    lemma_run_step(s1, e2);
    lemma_run_step(s0, e1);
    assert(run(Login::Done, Seq::<Event>::empty()).1 =~= Seq::<Action>::empty());
    assert(e1 =~= seq![Event::UserFound(Ok(Some(user))), Event::UserUpdated(Ok(row))]);
    assert(run(s0, e1).1 =~= seq![
        Action::UpdateUser(display_update_of(profile)),
        Action::Finish(row, token),
    ]);
}

/// One event, then the rest.
proof fn lemma_run_step(s: Login, events: Seq<Event>)
    requires
        events.len() > 0,
    ensures
        run(s, events) == (
            run(transition(s, events[0]).0, events.drop_first()).0,
            seq![transition(s, events[0]).1] + run(transition(s, events[0]).0, events.drop_first()).1,
        ),
{
}

} // verus!
