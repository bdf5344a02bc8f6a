use auth_core::hashing::is_password_valid;
use auth_core::login::{LoginAction, LoginEvent, LoginState, login_step, login_step_expects};
use auth_core::model::{
    Identity, IdentityEvent, LoginCredentials, LoginError, LookupOutcome, MqTopic, NewIdentity,
    PersistOutcome, PublishPolicy, RegistrationCredentials, RegistrationError, login_message,
    registration_message, sans_password_hash,
};
use auth_core::register::{
    RegAction, RegEvent, RegState, reg_step_expects, registration_step,
};

/// An in-memory stand-in for the identity store, honouring the email
/// uniqueness constraint the way the real store's schema does.
struct FakeStore {
    rows: Vec<Identity>,
    next_id: u32,
    fail_writes: bool,
}

impl FakeStore {
    fn new() -> FakeStore {
        FakeStore { rows: Vec::new(), next_id: 1, fail_writes: false }
    }

    fn lookup(&self, email: &str) -> LookupOutcome {
        match self.rows.iter().find(|r| r.email == email) {
            Some(r) => LookupOutcome::Found(r.clone()),
            None => LookupOutcome::NotFound,
        }
    }

    fn insert(&mut self, record: NewIdentity) -> PersistOutcome {
        if self.fail_writes {
            return PersistOutcome::WriteFailed;
        }
        if self.rows.iter().any(|r| r.email == record.email) {
            return PersistOutcome::Conflict;
        }
        let identity = Identity {
            id: format!("id-{}", self.next_id),
            email: record.email,
            password_hash: record.password_hash,
            first_name: record.first_name,
            last_name: record.last_name,
            created_at: "2024-01-01T00:00:00Z".to_string(),
            updated_at: "2024-01-01T00:00:00Z".to_string(),
        };
        self.next_id += 1;
        self.rows.push(identity.clone());
        PersistOutcome::Persisted(identity)
    }
}

/// Drive one registration to its end against the fake store, collecting
/// every event that was handed out for publishing.
fn run_registration(
    store: &mut FakeStore,
    req: RegistrationCredentials,
    publish_ack: bool,
) -> (RegState, Vec<IdentityEvent>) {
    let mut published: Vec<IdentityEvent> = Vec::new();
    let mut state = RegState::AwaitingLookup(req.clone());
    let mut event = RegEvent::LookupDone(store.lookup(&req.email));
    loop {
        assert!(reg_step_expects(&state, &event));
        let (next, action) = registration_step(state, event, PublishPolicy::FailClosed);
        state = next;
        match action {
            RegAction::Persist(record) => {
                event = RegEvent::PersistDone(store.insert(record));
            }
            RegAction::Publish(ev) => {
                if publish_ack {
                    published.push(ev);
                }
                event = RegEvent::PublishDone(publish_ack);
            }
            RegAction::Halt => return (state, published),
        }
    }
}

fn run_login(
    store: &FakeStore,
    cred: LoginCredentials,
    key: &[u8],
) -> (LoginState, Vec<IdentityEvent>) {
    let mut published: Vec<IdentityEvent> = Vec::new();
    let mut state = LoginState::AwaitingLookup(cred.clone());
    let mut event = LoginEvent::LookupDone(store.lookup(&cred.email));
    loop {
        assert!(login_step_expects(&state, &event));
        let (next, action) = login_step(state, event, key, PublishPolicy::FailClosed);
        state = next;
        match action {
            LoginAction::Publish(ev) => {
                published.push(ev);
                event = LoginEvent::PublishDone(true);
            }
            LoginAction::Halt => return (state, published),
        }
    }
}

fn sample_request() -> RegistrationCredentials {
    RegistrationCredentials {
        email: "a@x.com".to_string(),
        password: "Secret123".to_string(),
        first_name: "A".to_string(),
        last_name: "B".to_string(),
    }
}

#[test]
fn registration_scenario_persists_and_publishes() {
    let mut store = FakeStore::new();
    let (state, published) = run_registration(&mut store, sample_request(), true);
    let identity = match state {
        RegState::Completed(u) => u,
        other => panic!("expected completion, got {:?}", other),
    };
    assert_eq!(identity.email, "a@x.com");
    assert_eq!(identity.first_name, "A");
    assert_eq!(identity.last_name, "B");
    assert!(!identity.id.is_empty());
    assert_eq!(is_password_valid("Secret123", &identity.password_hash), Ok(true));
    assert_eq!(store.rows.len(), 1);
    assert_eq!(published.len(), 1);
    assert_eq!(published[0].topic, MqTopic::UserRegistration);
    assert_eq!(published[0].topic.name(), "user.registration");
    let expected = format!(
        "{{\"id\":\"{}\",\"email\":\"a@x.com\",\"firstName\":\"A\",\"lastName\":\"B\"}}",
        identity.id,
    );
    assert_eq!(published[0].payload, expected.into_bytes());
}

#[test]
fn duplicate_email_is_rejected_with_no_second_row() {
    let mut store = FakeStore::new();
    let (first, _) = run_registration(&mut store, sample_request(), true);
    assert!(matches!(first, RegState::Completed(_)));
    let (second, published) = run_registration(&mut store, sample_request(), true);
    match second {
        RegState::Refused(e) => {
            assert_eq!(e, RegistrationError::EmailAlreadyRegistered);
            assert_eq!(
                registration_message(&e),
                "A user is already registered with this email."
            );
        }
        other => panic!("expected rejection, got {:?}", other),
    }
    assert_eq!(store.rows.len(), 1);
    assert_eq!(published.len(), 0);
}

#[test]
fn empty_password_is_a_hashing_failure() {
    let mut req = sample_request();
    req.password = String::new();
    let (state, action) = registration_step(
        RegState::AwaitingLookup(req),
        RegEvent::LookupDone(LookupOutcome::NotFound),
        PublishPolicy::FailClosed,
    );
    assert!(matches!(state, RegState::Refused(RegistrationError::HashingFailed)));
    assert!(matches!(action, RegAction::Halt));
}

#[test]
fn caller_facing_identity_leaves_the_hash_out() {
    let mut store = FakeStore::new();
    let (state, _) = run_registration(&mut store, sample_request(), true);
    let identity = match state {
        RegState::Completed(u) => u,
        other => panic!("expected completion, got {:?}", other),
    };
    let public = sans_password_hash(&identity);
    assert_eq!(public.email, identity.email);
    assert_eq!(public.id, identity.id);
    assert_eq!(public.first_name, identity.first_name);
    assert_eq!(public.last_name, identity.last_name);
    assert!(public.password_hash.is_empty());
}

#[test]
fn persist_conflict_maps_to_the_duplicate_email_rejection() {
    let (state, action) = registration_step(
        RegState::AwaitingPersist,
        RegEvent::PersistDone(PersistOutcome::Conflict),
        PublishPolicy::FailClosed,
    );
    assert!(matches!(
        state,
        RegState::Refused(RegistrationError::EmailAlreadyRegistered)
    ));
    assert!(matches!(action, RegAction::Halt));
}

#[test]
fn failed_lookup_proceeds_fail_open() {
    let (state, action) = registration_step(
        RegState::AwaitingLookup(sample_request()),
        RegEvent::LookupDone(LookupOutcome::LookupFailed),
        PublishPolicy::FailClosed,
    );
    assert!(matches!(state, RegState::AwaitingPersist));
    assert!(matches!(action, RegAction::Persist(_)));
}

#[test]
fn failed_persist_publishes_nothing() {
    let mut store = FakeStore::new();
    store.fail_writes = true;
    let (state, published) = run_registration(&mut store, sample_request(), true);
    match state {
        RegState::Refused(e) => assert_eq!(e, RegistrationError::PersistenceFailed),
        other => panic!("expected failure, got {:?}", other),
    }
    assert_eq!(published.len(), 0);
    assert_eq!(store.rows.len(), 0);
}

#[test]
fn refused_publish_aborts_fail_closed_and_passes_fail_open() {
    let mut store = FakeStore::new();
    let (state, _) = run_registration(&mut store, sample_request(), false);
    match state {
        RegState::Refused(e) => assert_eq!(e, RegistrationError::PublishFailed),
        other => panic!("expected publish failure, got {:?}", other),
    }
    let identity = store.rows[0].clone();
    let (state, action) = registration_step(
        RegState::AwaitingPublish(identity),
        RegEvent::PublishDone(false),
        PublishPolicy::FailOpen,
    );
    assert!(matches!(state, RegState::Completed(_)));
    assert!(matches!(action, RegAction::Halt));
}

#[test]
fn login_scenario_issues_a_token_and_publishes() {
    let mut store = FakeStore::new();
    run_registration(&mut store, sample_request(), true);
    let cred = LoginCredentials {
        email: "a@x.com".to_string(),
        password: "Secret123".to_string(),
    };
    let (state, published) = run_login(&store, cred, b"test-signing-key");
    let token = match state {
        LoginState::Completed(t) => t,
        other => panic!("expected completion, got {:?}", other),
    };
    assert!(!token.encoded_token.is_empty());
    assert_eq!(published.len(), 1);
    assert_eq!(published[0].topic, MqTopic::UserLogin);
    assert_eq!(published[0].topic.name(), "user.login");
    let expected = format!(
        "{{\"id\":\"{}\",\"email\":\"a@x.com\",\"firstName\":\"A\",\"lastName\":\"B\"}}",
        store.rows[0].id,
    );
    assert_eq!(published[0].payload, expected.into_bytes());
}

#[test]
fn wrong_password_is_rejected_with_no_event() {
    let mut store = FakeStore::new();
    run_registration(&mut store, sample_request(), true);
    let cred = LoginCredentials {
        email: "a@x.com".to_string(),
        password: "wrong".to_string(),
    };
    let (state, published) = run_login(&store, cred, b"test-signing-key");
    match state {
        LoginState::Refused(e) => assert_eq!(e, LoginError::InvalidCredentials),
        other => panic!("expected rejection, got {:?}", other),
    }
    assert_eq!(published.len(), 0);
}

#[test]
fn wrong_password_and_unknown_email_are_byte_identical() {
    let mut store = FakeStore::new();
    run_registration(&mut store, sample_request(), true);
    let wrong_password = run_login(
        &store,
        LoginCredentials { email: "a@x.com".to_string(), password: "wrong".to_string() },
        b"k",
    )
    .0;
    let unknown_email = run_login(
        &store,
        LoginCredentials { email: "b@x.com".to_string(), password: "Secret123".to_string() },
        b"k",
    )
    .0;
    let failed_lookup = login_step(
        LoginState::AwaitingLookup(LoginCredentials {
            email: "a@x.com".to_string(),
            password: "Secret123".to_string(),
        }),
        LoginEvent::LookupDone(LookupOutcome::LookupFailed),
        b"k",
        PublishPolicy::FailClosed,
    )
    .0;
    let messages: Vec<Vec<u8>> = [wrong_password, unknown_email, failed_lookup]
        .into_iter()
        .map(|s| match s {
            LoginState::Refused(e) => login_message(&e).into_bytes(),
            other => panic!("expected rejection, got {:?}", other),
        })
        .collect();
    assert_eq!(messages[0], messages[1]);
    assert_eq!(messages[0], messages[2]);
    assert_eq!(messages[0], b"The provided e-mail or password is invalid.".to_vec());
}

#[test]
fn malformed_stored_hash_reads_as_invalid_credentials() {
    let identity = Identity {
        id: "id-9".to_string(),
        email: "c@x.com".to_string(),
        password_hash: "not-a-phc-string".to_string(),
        first_name: "C".to_string(),
        last_name: "D".to_string(),
        created_at: "2024-01-01T00:00:00Z".to_string(),
        updated_at: "2024-01-01T00:00:00Z".to_string(),
    };
    let (state, action) = login_step(
        LoginState::AwaitingLookup(LoginCredentials {
            email: "c@x.com".to_string(),
            password: "Secret123".to_string(),
        }),
        LoginEvent::LookupDone(LookupOutcome::Found(identity)),
        b"k",
        PublishPolicy::FailClosed,
    );
    assert!(matches!(state, LoginState::Refused(LoginError::InvalidCredentials)));
    assert!(matches!(action, LoginAction::Halt));
}

#[test]
fn mismatched_event_is_not_expected() {
    let state = RegState::AwaitingPersist;
    let event = RegEvent::PublishDone(true);
    assert!(!reg_step_expects(&state, &event));
    let state = LoginState::AwaitingLookup(LoginCredentials {
        email: "a@x.com".to_string(),
        password: "Secret123".to_string(),
    });
    let event = LoginEvent::PublishDone(true);
    assert!(!login_step_expects(&state, &event));
}

#[test]
fn login_publish_failure_follows_the_policy() {
    let mut store = FakeStore::new();
    run_registration(&mut store, sample_request(), true);
    let (state, _) = run_login(
        &store,
        LoginCredentials { email: "a@x.com".to_string(), password: "Secret123".to_string() },
        b"k",
    );
    let token = match state {
        LoginState::Completed(t) => t,
        other => panic!("expected completion, got {:?}", other),
    };
    let (closed, action) = login_step(
        LoginState::AwaitingPublish(token.clone()),
        LoginEvent::PublishDone(false),
        b"k",
        PublishPolicy::FailClosed,
    );
    assert!(matches!(closed, LoginState::Refused(LoginError::PublishFailed)));
    assert!(matches!(action, LoginAction::Halt));
    let (open, _) = login_step(
        LoginState::AwaitingPublish(token),
        LoginEvent::PublishDone(false),
        b"k",
        PublishPolicy::FailOpen,
    );
    assert!(matches!(open, LoginState::Completed(_)));
}

#[test]
fn error_messages_are_fixed() {
    assert_eq!(
        registration_message(&RegistrationError::PersistenceFailed),
        "A server error has happened. Please try again."
    );
    assert_eq!(
        registration_message(&RegistrationError::HashingFailed),
        "A server error has happened. Please try again."
    );
    assert_eq!(
        registration_message(&RegistrationError::PublishFailed),
        "A server error has happened. Please try again."
    );
    assert_eq!(
        login_message(&LoginError::IssuanceFailed),
        "A server error has happened. Please try again."
    );
    assert_eq!(
        login_message(&LoginError::PublishFailed),
        "A server error has happened. Please try again."
    );
}
