use veruna::data::DataError;
use veruna::roles::admin_role_request;
use veruna::users::errors::{LoginError, RegisterUserError};
use veruna::users::events::{AfterRegisterUserEvent, UserEventsContainer, UserEventsNotifier, UsrEvents};
use veruna::users::models::claims::{Claims, ClaimsTrait};
use veruna::users::register_user_error::RegisterUserError as SoleRegisterUserError;
use veruna::users::user_id::{UserId, UserIdTrait};
use veruna::users::user_list::{UserList, UserListItem, UserListItemTrait, UserListTrait};
use veruna::users::{
    check_login_checked, create_admin_action, finish_registration, login_result,
    prepare_registration, registration_outcome, registration_with_salt, CreateAdminAction,
    LoginUser, User,
};
use veruna::DomainError;

const SALT: &str = "c29tZXNhbHRzb21lc2FsdA";

fn stored(password: &str) -> User {
    User { id: "users:42".to_string(), username: "alice".to_string(), password: password.to_string() }
}

fn login(password: &str) -> LoginUser {
    LoginUser { username: "alice".to_string(), password: password.to_string() }
}

#[test]
fn registration_hashes_with_the_salt() {
    let reg = registration_with_salt("alice".to_string(), "secret", SALT).unwrap();
    assert_eq!(reg.username, "alice");
    assert!(reg.password.starts_with("$argon2id$v=19$m=19456,t=2,p=1$"));
    assert!(reg.password.contains(SALT));
    let again = registration_with_salt("alice".to_string(), "secret", SALT).unwrap();
    assert_eq!(reg.password, again.password);
    let other = registration_with_salt("alice".to_string(), "other", SALT).unwrap();
    assert_ne!(reg.password, other.password);
}

#[test]
fn registration_stores_the_phc_string() {
    for salt in [SALT, "c29tZXNhbHQx", "AAAAAAAAAAAAAAAAAAAAAAAAAAAAAAAA"] {
        let reg = registration_with_salt("alice".to_string(), "secret", salt).unwrap();
        let head = format!("$argon2id$v=19$m=19456,t=2,p=1${}$", salt);
        assert!(reg.password.starts_with(&head));
        assert_eq!(reg.password.len(), head.len() + 43);
        assert_ne!(reg.password, "secret");
    }
    let reg = prepare_registration("alice".to_string(), "secret").unwrap();
    assert!(reg.password.starts_with("$argon2id$v=19$m=19456,t=2,p=1$"));
    assert_eq!(reg.password.len(), "$argon2id$v=19$m=19456,t=2,p=1$".len() + 22 + 44);
}

#[test]
fn registration_refuses_a_bad_salt() {
    assert!(registration_with_salt("alice".to_string(), "secret", "").is_none());
    assert!(registration_with_salt("alice".to_string(), "secret", "not b64!").is_none());
}

#[test]
fn salt_acceptance_follows_the_b64_decoder() {
    let hash = |salt: &str| registration_with_salt("alice".to_string(), "secret", salt);
    // 11 characters decode to 8 bytes, the least Argon2 takes.
    assert!(hash("AAAAAAAAAAA").is_some());
    // 10 characters decode to 7 bytes.
    assert!(hash("AAAAAAAAAA").is_none());
    // One more than a multiple of 4 decodes to no whole byte.
    assert!(hash("AAAAAAAAAAAAA").is_none());
    // A last character with bits beyond the last byte.
    assert!(hash("c29tZXNhbHRzb21lc2FsdB").is_none());
    assert!(hash("AAAAAAAAAAAAAAB").is_none());
    assert!(hash("AAAAAAAAAAAAAAE").is_some());
    // Characters of the PHC salt alphabet outside B64.
    assert!(hash("AAAAAAAAAAA.").is_none());
    assert!(hash("AAAAAAAAAAA-").is_none());
    // At most 64 characters.
    assert!(hash(&"A".repeat(64)).is_some());
    assert!(hash(&"A".repeat(65)).is_none());
}

#[test]
fn prepare_registration_succeeds_for_ordinary_passwords() {
    for password in ["", "secret", "пароль", "a much longer pass phrase with spaces"] {
        let reg = prepare_registration("carol".to_string(), password).unwrap();
        assert_eq!(reg.username, "carol");
        let login = LoginUser { username: "carol".to_string(), password: password.to_string() };
        assert!(check_login_checked(Some(stored(&reg.password)), &login).unwrap().is_ok());
    }
}

#[test]
fn every_receiver_reads_the_same_channel() {
    let events = UserEventsContainer::new();
    let first = events.receiver();
    let second = events.receiver();
    assert!(events.notify(UsrEvents::AfterRegister(AfterRegisterUserEvent {
        user_id: UserId { value: "one".to_string() },
    })));
    assert!(events.notify(UsrEvents::AfterRegister(AfterRegisterUserEvent {
        user_id: UserId { value: "two".to_string() },
    })));
    assert_eq!(second.try_recv().unwrap().user_id.value, "one");
    assert_eq!(first.try_recv().unwrap().user_id.value, "two");
    drop(first);
    drop(second);
    assert!(events.notify(UsrEvents::AfterRegister(AfterRegisterUserEvent {
        user_id: UserId { value: "three".to_string() },
    })));
}

#[test]
fn registered_password_logs_in() {
    let reg = prepare_registration("alice".to_string(), "secret").unwrap();
    let claims = check_login_checked(Some(stored(&reg.password)), &login("secret")).unwrap().ok().unwrap();
    assert_eq!(claims.username(), "alice");
    assert_eq!(claims.id(), "users:42");
}

#[test]
fn wrong_password_is_refused() {
    let reg = registration_with_salt("alice".to_string(), "secret", SALT).unwrap();
    match check_login_checked(Some(stored(&reg.password)), &login("Secret")).unwrap() {
        Err(e) => assert_eq!(e.message(), "Неверный пароль"),
        Ok(_) => panic!("expected a refusal"),
    }
}

#[test]
fn unknown_user_is_refused() {
    match check_login_checked(None, &login("secret")).unwrap() {
        Err(e) => assert_eq!(e.message(), "Пользователь не найден"),
        Ok(_) => panic!("expected a refusal"),
    }
}

#[test]
fn login_result_follows_the_verification() {
    let ok = login_result(Some(stored("h")), true).ok().unwrap();
    assert_eq!(ok.username(), "alice");
    assert_eq!(ok.id(), "users:42");
    assert_eq!(login_result(Some(stored("h")), false).err().unwrap().message(), "Неверный пароль");
    assert_eq!(login_result(None, true).err().unwrap().message(), "Пользователь не найден");
    assert_eq!(login_result(None, false).err().unwrap().message(), "Пользователь не найден");
}

#[test]
fn unreadable_stored_hash_is_reported() {
    assert!(check_login_checked(Some(stored("plain text")), &login("plain text")).is_none());
    assert!(check_login_checked(None, &login("x")).unwrap().is_err());
    let reg = registration_with_salt("alice".to_string(), "pw", SALT).unwrap();
    assert!(check_login_checked(Some(stored(&reg.password)), &login("pw")).unwrap().is_ok());
}

#[test]
fn registration_outcome_success_and_failure() {
    let (ok, event) = registration_outcome::<DataError>(Ok(UserId { value: "users:1".to_string() }));
    assert_eq!(ok.ok().unwrap().value, "users:1");
    assert_eq!(event.unwrap().user_id.value, "users:1");

    let (err, event) =
        registration_outcome(Err::<UserId, DataError>(DataError::new("duplicate".to_string())));
    match err {
        Err(e) => assert_eq!(e.message(), "duplicate"),
        Ok(_) => panic!("expected an error"),
    }
    assert!(event.is_none());
}

#[test]
fn finish_registration_announces_the_user() {
    let events = UserEventsContainer::new();
    let receiver = events.receiver();
    let r = finish_registration::<DataError>(&events, Ok(UserId { value: "users:9".to_string() }));
    assert_eq!(r.ok().unwrap().value(), "users:9");
    let event = receiver.try_recv().unwrap();
    assert_eq!(event.user_id.value, "users:9");

    let r = finish_registration(&events, Err::<UserId, DataError>(DataError::new("down".to_string())));
    assert_eq!(r.err().unwrap().message(), "down");
    assert!(receiver.try_recv().is_err());
}

#[test]
fn container_notifies_and_keeps_test_data() {
    let events = UserEventsContainer::new();
    assert_eq!(events.test_data, "Not empty string");
    let receiver = events.receiver();
    let event = AfterRegisterUserEvent { user_id: UserId { value: "u".to_string() } };
    assert!(events.notify(UsrEvents::AfterRegister(event)));
    assert_eq!(receiver.try_recv().unwrap().user_id.value, "u");
    let _notifier = UserEventsNotifier::new(UsrEvents::AfterRegister(AfterRegisterUserEvent {
        user_id: UserId { value: "v".to_string() },
    }));
}

#[test]
fn a_cloned_container_sends_on_the_same_channel() {
    let events = UserEventsContainer::new();
    let copy = events.clone();
    assert_eq!(copy.test_data, "Not empty string");
    let receiver = events.receiver();
    assert!(copy.notify(UsrEvents::AfterRegister(AfterRegisterUserEvent {
        user_id: UserId { value: "users:3".to_string() },
    })));
    assert_eq!(receiver.try_recv().unwrap().user_id.value, "users:3");
    assert!(copy.receiver().try_recv().is_err());
}

#[test]
fn create_admin_adds_or_reads_roles() {
    match create_admin_action("admin".to_string(), None) {
        CreateAdminAction::AddUser(n) => assert_eq!(n, "admin"),
        CreateAdminAction::ReadRoles(_) => panic!("expected an addition"),
    }
    let found = User { id: "1".to_string(), username: "Admin".to_string(), password: String::new() };
    match create_admin_action("admin".to_string(), Some(found)) {
        CreateAdminAction::ReadRoles(n) => assert_eq!(n, "Admin"),
        CreateAdminAction::AddUser(_) => panic!("expected a roles read"),
    }
}

#[test]
fn first_user_becomes_admin() {
    assert_eq!(admin_role_request(1), Some("admin".to_string()));
    assert_eq!(admin_role_request(0), None);
    assert_eq!(admin_role_request(2), None);
}

#[test]
fn errors_carry_their_message() {
    assert_eq!(RegisterUserError::new("a".to_string()).message(), "a");
    assert_eq!(SoleRegisterUserError::new("b".to_string()).message(), "b");
    assert_eq!(LoginError::new("c".to_string()).message(), "c");
}

#[test]
fn user_list_and_claims_keep_their_values() {
    let item = UserListItem::new("users:1".to_string(), "bob".to_string());
    assert_eq!(item.id(), "users:1");
    assert_eq!(item.username(), "bob");
    let list = UserList::new(vec![item, UserListItem::new("users:2".to_string(), "eve".to_string())]);
    let shared = list.list();
    assert_eq!(shared.len(), 2);
    assert_eq!(shared[1].username(), "eve");
    let claims = Claims::new("bob".to_string(), "users:1".to_string());
    assert_eq!(claims.username(), "bob");
    assert_eq!(claims.id(), "users:1");
    assert_eq!(UserId { value: "x".to_string() }.value(), "x");
}
