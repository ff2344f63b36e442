use cogere::auth::basic::MachineCredentials;
use cogere::auth::extractor::{AuthenticatedEntity, Event, Resolution, SessionOutcome};
use cogere::auth::password::verify;
use cogere::auth::permissions::{HasPermissions, Permission};
use cogere::errors::Rejection;
use cogere::models::auth::{MachineKey, Role, User};
use cogere::models::id::Uuid;

const KEY_ID: u128 = 0x11111111_1111_1111_1111_111111111111;
const HEADER: &[u8] = b"Basic MTExMTExMTEtMTExMS0xMTExLTExMTEtMTExMTExMTExMTExOnMzY3JldA==";

fn machine(key_hash: String) -> MachineKey {
    MachineKey {
        id: Uuid::from_u128(KEY_ID),
        description: "ci".to_string(),
        group_id: Uuid::from_u128(7),
        key_hash,
    }
}

fn alice() -> User {
    User {
        id: Uuid::from_u128(0xa11ce),
        username: "alice".to_string(),
        email: "alice@example.org".to_string(),
        password_hash: "$argon2id$stored".to_string(),
        role: Role::User,
    }
}

fn credentials() -> MachineCredentials {
    MachineCredentials { id: Uuid::from_u128(KEY_ID), secret: b"s3cret".to_vec() }
}

fn unauthorized() -> Resolution {
    Resolution::Done(Err(Rejection::Unauthorized))
}

fn internal() -> Resolution {
    Resolution::Done(Err(Rejection::Internal))
}

/// Answers a resolution as a truthful caller would: no session, the given
/// record under the key's identifier, and the verifier's own answer.
fn resolve(header: Option<&[u8]>, stored: Option<MachineKey>) -> Resolution {
    let mut state = Resolution::begin(header).step(Event::Session(SessionOutcome::Unavailable));
    if let Resolution::NeedMachineKey { credentials } = &state {
        let found = stored.filter(|key| key.id == credentials.id);
        state = state.step(Event::MachineKey(found));
    }
    if let Resolution::NeedVerdict { machine, secret } = &state {
        let verdict = verify(secret, &machine.key_hash);
        state = state.step(Event::Verified(verdict));
    }
    state
}

#[test]
fn machine_key_with_the_right_secret_resolves_to_the_machine() {
    let key = machine(password_auth::generate_hash("s3cret"));
    let resolved = resolve(Some(HEADER), Some(key.clone()));
    assert!(resolved == Resolution::Done(Ok(AuthenticatedEntity::Machine(key.clone()))));
    let entity = AuthenticatedEntity::Machine(key);
    assert!(!entity.has_permission(Permission::ManageUsers));
    assert!(entity.has_permission(Permission::UploadPlugin));
    assert_eq!(entity.identifier(), "machine:ci");
}

#[test]
fn machine_key_with_a_wrong_secret_is_unauthorized() {
    let key = machine(password_auth::generate_hash("another secret"));
    assert!(resolve(Some(HEADER), Some(key)) == unauthorized());
}

#[test]
fn unknown_machine_key_is_unauthorized() {
    assert!(resolve(Some(HEADER), None) == unauthorized());
    let mut other = machine(password_auth::generate_hash("s3cret"));
    other.id = Uuid::from_u128(KEY_ID + 1);
    assert!(resolve(Some(HEADER), Some(other)) == unauthorized());
}

#[test]
fn request_without_header_is_unauthorized() {
    assert!(resolve(None, Some(machine("unused".to_string()))) == unauthorized());
}

#[test]
fn corrupted_header_is_unauthorized() {
    let key = machine("unused".to_string());
    let corrupted: [&[u8]; 5] = [
        b"Basic MTExMTExMTEtMTExMS0xMTExLTExMTEtMTExMTExMTExMTExOnMzY3JldA=",
        b"Basic MTExMTExMTEtMTExMS0xMTExLTExMTEtMTExMTExMTExMTEx",
        b"Basic bm90LWEtdXVpZDpzM2NyZXQ=",
        b"Basic //46czNjcmV0",
        b"Bearer MTExMTExMTEtMTExMS0xMTExLTExMTEtMTExMTExMTExMTExOnMzY3JldA==",
    ];
    for header in corrupted {
        assert!(resolve(Some(header), Some(key.clone())) == unauthorized());
    }
}

#[test]
fn resolution_starts_by_asking_the_session() {
    let state = Resolution::begin(Some(HEADER));
    assert!(state == Resolution::NeedSession { credentials: Some(credentials()) });
    assert!(Resolution::begin(None) == Resolution::NeedSession { credentials: None });
    assert!(Resolution::begin(Some(b"Basic ???")) == Resolution::NeedSession { credentials: None });
}

#[test]
fn logged_in_user_is_the_identity_whatever_the_header_holds() {
    for header in [Some(HEADER), Some(b"garbage".as_slice()), None] {
        let state =
            Resolution::begin(header).step(Event::Session(SessionOutcome::LoggedIn(alice())));
        assert!(state == Resolution::Done(Ok(AuthenticatedEntity::User(alice()))));
    }
}

#[test]
fn without_a_user_the_machine_key_is_asked_for() {
    for session in [SessionOutcome::Unavailable, SessionOutcome::Anonymous] {
        let state = Resolution::begin(Some(HEADER)).step(Event::Session(session));
        assert!(state == Resolution::NeedMachineKey { credentials: credentials() });
    }
}

#[test]
fn found_machine_key_is_verified_with_the_secret_of_the_header() {
    let key = machine("$argon2id$key".to_string());
    let state = Resolution::NeedMachineKey { credentials: credentials() }
        .step(Event::MachineKey(Some(key.clone())));
    assert!(state == Resolution::NeedVerdict { machine: key, secret: b"s3cret".to_vec() });
}

#[test]
fn verdict_decides() {
    let key = machine("$argon2id$key".to_string());
    let accepted = Resolution::NeedVerdict { machine: key.clone(), secret: b"s3cret".to_vec() }
        .step(Event::Verified(true));
    let refused = Resolution::NeedVerdict { machine: key.clone(), secret: b"s3cret".to_vec() }
        .step(Event::Verified(false));
    assert!(accepted == Resolution::Done(Ok(AuthenticatedEntity::Machine(key))));
    assert!(refused == unauthorized());
}

#[test]
fn failed_lookup_is_internal() {
    let state = Resolution::NeedMachineKey { credentials: credentials() }.step(Event::LookupFailed);
    assert!(state == internal());
}

#[test]
fn dead_worker_is_internal() {
    let key = machine("$argon2id$key".to_string());
    let state = Resolution::NeedVerdict { machine: key, secret: b"s3cret".to_vec() }
        .step(Event::VerifierFailed);
    assert!(state == internal());
}

#[test]
fn answer_out_of_turn_is_internal() {
    let key = machine("$argon2id$key".to_string());
    assert!(Resolution::begin(Some(HEADER)).step(Event::Verified(true)) == internal());
    assert!(Resolution::begin(Some(HEADER)).step(Event::MachineKey(Some(key.clone()))) == internal());
    assert!(
        Resolution::NeedMachineKey { credentials: credentials() }.step(Event::Verified(true))
            == internal()
    );
    assert!(
        Resolution::NeedMachineKey { credentials: credentials() }
            .step(Event::Session(SessionOutcome::LoggedIn(alice())))
            == internal()
    );
    assert!(
        Resolution::NeedVerdict { machine: key.clone(), secret: Vec::new() }
            .step(Event::MachineKey(Some(key)))
            == internal()
    );
}

#[test]
fn finished_resolution_stays_as_it_is() {
    let done = Resolution::Done(Ok(AuthenticatedEntity::User(alice())));
    let later = done.step(Event::Verified(false)).step(Event::LookupFailed);
    assert!(later == Resolution::Done(Ok(AuthenticatedEntity::User(alice()))));
    assert!(unauthorized().step(Event::Verified(true)) == unauthorized());
    assert!(
        unauthorized().step(Event::Session(SessionOutcome::LoggedIn(alice()))) == unauthorized()
    );
}

#[test]
fn rejections_have_their_own_status() {
    assert_eq!(Rejection::BadRequest.status_code(), 400);
    assert_eq!(Rejection::Unauthorized.status_code(), 401);
    assert_eq!(Rejection::Forbidden.status_code(), 403);
    assert_eq!(Rejection::Internal.status_code(), 500);
}
