use poac_api::account::{AccountStatus, LocalUser, NewUser, ProviderProfile};
use poac_api::reconcile::{Action, CallbackError, Event, InsertError, Login};

struct Provider {
    code: String,
    token: String,
    profile: ProviderProfile,
    email: String,
}

#[derive(Default)]
struct MemoryStore {
    rows: Vec<LocalUser>,
    writes: usize,
}

impl MemoryStore {
    fn find(&self, handle: &str) -> Option<LocalUser> {
        self.rows.iter().find(|u| u.user_name == handle).cloned()
    }

    fn insert(&mut self, row: NewUser) -> Result<LocalUser, InsertError> {
        if self.find(&row.user_name).is_some() {
            return Err(InsertError::Conflict);
        }
        self.writes += 1;
        let user = LocalUser {
            id: self.rows.len() as i32 + 1,
            name: row.name,
            user_name: row.user_name,
            avatar_url: row.avatar_url,
            email: row.email,
            status: row.status,
        };
        self.rows.push(user.clone());
        Ok(user)
    }

    fn seed(&mut self, handle: &str, name: &str, avatar: &str, email: &str, status: AccountStatus) {
        let id = self.rows.len() as i32 + 1;
        self.rows.push(LocalUser {
            id,
            name: name.to_string(),
            user_name: handle.to_string(),
            avatar_url: avatar.to_string(),
            email: email.to_string(),
            status,
        });
    }
}

fn profile(handle: &str, name: &str, avatar: &str) -> ProviderProfile {
    ProviderProfile {
        user_name: handle.to_string(),
        name: name.to_string(),
        avatar_url: avatar.to_string(),
    }
}

/// Answers one action against the provider and the store.
fn answer(action: &Action, provider: &Provider, store: &mut MemoryStore) -> Event {
    match action {
        Action::ExchangeCode(code) => {
            if *code == provider.code {
                Event::TokenIssued(Ok(provider.token.clone()))
            } else {
                Event::TokenIssued(Err("bad code".to_string()))
            }
        }
        Action::FetchProfile(token) => {
            assert_eq!(*token, provider.token);
            Event::ProfileFetched(Ok(provider.profile.clone()))
        }
        Action::FindUser(handle) => Event::UserFound(Ok(store.find(handle))),
        Action::FetchEmail(token) => {
            assert_eq!(*token, provider.token);
            Event::EmailFetched(Ok(provider.email.clone()))
        }
        Action::InsertUser(row) => Event::UserInserted(store.insert(row.clone())),
        Action::UpdateUser(update) => {
            store.writes += 1;
            let row = store
                .rows
                .iter_mut()
                .find(|u| u.user_name == update.user_name)
                .expect("row to update");
            row.name = update.name.clone();
            row.avatar_url = update.avatar_url.clone();
            Event::UserUpdated(Ok(row.clone()))
        }
        other => panic!("no outside work for {:?}", other),
    }
}

fn drive(provider: &Provider, store: &mut MemoryStore) -> (Vec<Action>, Result<(LocalUser, String), CallbackError>) {
    let (mut state, mut action) = Login::begin(provider.code.clone());
    let mut actions = vec![action.clone()];
    loop {
        match action {
            Action::Finish(user, token) => return (actions, Ok((user, token))),
            Action::Fail(err) => return (actions, Err(err)),
            _ => {}
        }
        let event = answer(&action, provider, store);
        let (next, next_action) = state.step(event);
        state = next;
        action = next_action;
        actions.push(action.clone());
    }
}

fn alice_provider(name: &str, avatar: &str) -> Provider {
    Provider {
        code: "code1".to_string(),
        token: "tok1".to_string(),
        profile: profile("alice", name, avatar),
        email: "alice@x.com".to_string(),
    }
}

#[test]
fn first_login_creates_active_account() {
    let mut store = MemoryStore::default();
    let (actions, result) = drive(&alice_provider("Alice", "a.png"), &mut store);
    let (user, token) = result.expect("login succeeds");
    assert_eq!(token, "tok1");
    assert_eq!(store.rows.len(), 1);
    assert_eq!(store.writes, 1);
    let row = &store.rows[0];
    assert_eq!(row.user_name, "alice");
    assert_eq!(row.name, "Alice");
    assert_eq!(row.avatar_url, "a.png");
    assert_eq!(row.email, "alice@x.com");
    assert_eq!(row.status, AccountStatus::Active);
    assert_eq!(user, *row);
    let inserts = actions.iter().filter(|a| matches!(a, Action::InsertUser(_))).count();
    assert_eq!(inserts, 1);
    assert_eq!(actions[3], Action::FetchEmail("tok1".to_string()));
}

#[test]
fn repeat_login_with_same_profile_writes_nothing() {
    let mut store = MemoryStore::default();
    let (_, first) = drive(&alice_provider("Alice", "a.png"), &mut store);
    let stored = first.unwrap().0;
    let writes_before = store.writes;
    let (actions, second) = drive(&alice_provider("Alice", "a.png"), &mut store);
    let (user, token) = second.expect("login succeeds");
    assert_eq!(store.writes, writes_before);
    assert_eq!(user, stored);
    assert_eq!(token, "tok1");
    assert!(!actions.iter().any(|a| matches!(a, Action::InsertUser(_) | Action::UpdateUser(_) | Action::FetchEmail(_))));
}

#[test]
fn repeat_login_with_new_profile_updates_both_fields() {
    let mut store = MemoryStore::default();
    let (_, first) = drive(&alice_provider("Alice", "a.png"), &mut store);
    let stored = first.unwrap().0;
    let (actions, second) = drive(&alice_provider("Alice B.", "a2.png"), &mut store);
    let (user, _) = second.expect("login succeeds");
    assert_eq!(user.name, "Alice B.");
    assert_eq!(user.avatar_url, "a2.png");
    assert_eq!(user.id, stored.id);
    assert_eq!(user.user_name, stored.user_name);
    assert_eq!(user.email, stored.email);
    assert_eq!(user.status, stored.status);
    let updates: Vec<&Action> = actions.iter().filter(|a| matches!(a, Action::UpdateUser(_))).collect();
    assert_eq!(updates.len(), 1);
    match updates[0] {
        Action::UpdateUser(u) => {
            assert_eq!(u.user_name, "alice");
            assert_eq!(u.name, "Alice B.");
            assert_eq!(u.avatar_url, "a2.png");
        }
        _ => unreachable!(),
    }
}

#[test]
fn only_avatar_changed_still_writes_both_fields() {
    let mut store = MemoryStore::default();
    store.seed("alice", "Alice", "a.png", "alice@x.com", AccountStatus::Active);
    let (actions, result) = drive(&alice_provider("Alice", "a3.png"), &mut store);
    assert!(result.is_ok());
    assert!(actions.contains(&Action::UpdateUser(poac_api::account::DisplayUpdate {
        user_name: "alice".to_string(),
        name: "Alice".to_string(),
        avatar_url: "a3.png".to_string(),
    })));
    assert_eq!(store.writes, 1);
}

#[test]
fn disabled_account_is_refused_without_writes() {
    let mut store = MemoryStore::default();
    store.seed("bob", "Bob", "b.png", "bob@x.com", AccountStatus::Disabled);
    let before = store.rows.clone();
    let provider = Provider {
        code: "code2".to_string(),
        token: "tok2".to_string(),
        profile: profile("bob", "Bobby", "b2.png"),
        email: "bob@x.com".to_string(),
    };
    let (_, result) = drive(&provider, &mut store);
    match result {
        Err(CallbackError::Unauthorized(user)) => assert_eq!(user.user_name, "bob"),
        other => panic!("expected Unauthorized, got {:?}", other),
    }
    assert_eq!(store.writes, 0);
    assert_eq!(store.rows, before);
}

#[test]
fn concurrent_first_logins_make_one_row() {
    let mut store = MemoryStore::default();
    let provider = Provider {
        code: "code3".to_string(),
        token: "tok3".to_string(),
        profile: profile("carol", "Carol", "c.png"),
        email: "carol@x.com".to_string(),
    };
    let (mut s1, mut a1) = Login::begin(provider.code.clone());
    let (mut s2, mut a2) = Login::begin(provider.code.clone());
    // both callbacks look the handle up before either inserts
    for _ in 0..5 {
        let e1 = answer(&a1, &provider, &mut store);
        let e2 = answer(&a2, &provider, &mut store);
        let r1 = s1.step(e1);
        let r2 = s2.step(e2);
        s1 = r1.0;
        a1 = r1.1;
        s2 = r2.0;
        a2 = r2.1;
    }
    assert!(matches!(a1, Action::Finish(_, _)));
    assert_eq!(a2, Action::FindUser("carol".to_string()));
    let e2 = answer(&a2, &provider, &mut store);
    let (s2_next, a2_next) = s2.step(e2);
    assert!(s2_next.is_finished());
    assert!(s1.is_finished());
    match (a1, a2_next) {
        (Action::Finish(u1, t1), Action::Finish(u2, t2)) => {
            assert_eq!(u1, u2);
            assert_eq!(t1, "tok3");
            assert_eq!(t2, "tok3");
        }
        other => panic!("both logins should succeed: {:?}", other),
    }
    assert_eq!(store.rows.iter().filter(|u| u.user_name == "carol").count(), 1);
}

#[test]
fn conflict_without_row_is_a_store_failure() {
    let p = profile("dave", "Dave", "d.png");
    let (s, _) = Login::begin("c".to_string());
    let (s, _) = s.step(Event::TokenIssued(Ok("t".to_string())));
    let (s, _) = s.step(Event::ProfileFetched(Ok(p)));
    let (s, _) = s.step(Event::UserFound(Ok(None)));
    let (s, a) = s.step(Event::EmailFetched(Ok("d@x.com".to_string())));
    assert!(matches!(a, Action::InsertUser(ref row) if row.status == AccountStatus::Active && row.email == "d@x.com"));
    let (s, a) = s.step(Event::UserInserted(Err(InsertError::Conflict)));
    assert_eq!(a, Action::FindUser("dave".to_string()));
    let (s, a) = s.step(Event::UserFound(Ok(None)));
    assert_eq!(a, Action::Fail(CallbackError::ConflictUnresolved));
    assert!(s.is_finished());
}

#[test]
fn provider_failures_are_upstream_errors() {
    let (s, _) = Login::begin("c".to_string());
    let (_, a) = s.step(Event::TokenIssued(Err("exchange".to_string())));
    assert_eq!(a, Action::Fail(CallbackError::Upstream("exchange".to_string())));

    let (s, _) = Login::begin("c".to_string());
    let (s, _) = s.step(Event::TokenIssued(Ok("t".to_string())));
    let (_, a) = s.step(Event::ProfileFetched(Err("profile".to_string())));
    assert_eq!(a, Action::Fail(CallbackError::Upstream("profile".to_string())));

    let (s, _) = Login::begin("c".to_string());
    let (s, _) = s.step(Event::TokenIssued(Ok("t".to_string())));
    let (s, _) = s.step(Event::ProfileFetched(Ok(profile("e", "E", "e.png"))));
    let (s, _) = s.step(Event::UserFound(Ok(None)));
    let (_, a) = s.step(Event::EmailFetched(Err("email".to_string())));
    assert_eq!(a, Action::Fail(CallbackError::Upstream("email".to_string())));
}

#[test]
fn store_failures_are_persistence_errors() {
    let (s, _) = Login::begin("c".to_string());
    let (s, _) = s.step(Event::TokenIssued(Ok("t".to_string())));
    let (s, _) = s.step(Event::ProfileFetched(Ok(profile("e", "E", "e.png"))));
    let (_, a) = s.step(Event::UserFound(Err("down".to_string())));
    assert_eq!(a, Action::Fail(CallbackError::Persistence("down".to_string())));

    let (s, _) = Login::begin("c".to_string());
    let (s, _) = s.step(Event::TokenIssued(Ok("t".to_string())));
    let (s, _) = s.step(Event::ProfileFetched(Ok(profile("e", "E", "e.png"))));
    let (s, _) = s.step(Event::UserFound(Ok(None)));
    let (s, _) = s.step(Event::EmailFetched(Ok("e@x.com".to_string())));
    let (_, a) = s.step(Event::UserInserted(Err(InsertError::Failed("disk".to_string()))));
    assert_eq!(a, Action::Fail(CallbackError::Persistence("disk".to_string())));
}

#[test]
fn out_of_order_event_is_ignored() {
    let (s, _) = Login::begin("c".to_string());
    let (s, a) = s.step(Event::EmailFetched(Ok("x@x.com".to_string())));
    assert_eq!(a, Action::Ignore);
    assert!(!s.is_finished());
    let (_, a) = s.step(Event::TokenIssued(Ok("t".to_string())));
    assert_eq!(a, Action::FetchProfile("t".to_string()));
}

#[test]
fn finished_login_ignores_further_events() {
    let (s, _) = Login::begin("c".to_string());
    let (s, _) = s.step(Event::TokenIssued(Err("x".to_string())));
    assert!(s.is_finished());
    let (s, a) = s.step(Event::UserInserted(Err(InsertError::Conflict)));
    assert_eq!(a, Action::Ignore);
    assert!(s.is_finished());
}
