use auth_service::{
    BannedTokenStore, Email, HashMapUserStore, HashmapTwoFACodeStore, HashsetBannedTokenStore,
    LoginAttemptId, Password, TwoFACode, TwoFACodeStore, TwoFACodeStoreError, User, UserStore,
    UserStoreError,
};

fn test_user() -> User {
    let email = Email::parse("email@yahoo.net".to_string()).unwrap();
    let password = Password::parse("passwordistaco".to_string()).unwrap();
    User::new(email, password, false)
}

#[test]
fn hashmap_user_store_test_add_user() {
    let mut test_store = HashMapUserStore::default();
    let res = test_store.add_user(test_user());
    assert_eq!(res, Ok(()));
}

#[test]
fn hashmap_user_store_test_get_user() {
    let mut test_store = HashMapUserStore::default();
    let test_user = test_user();
    let _ = test_store.add_user(test_user.clone());
    let get_res = test_store.get_user(&test_user.email);
    assert!(get_res == Ok(test_user));
}

#[test]
fn hashmap_user_store_test_validate_user() {
    let mut test_store = HashMapUserStore::default();
    let test_user = test_user();
    let _ = test_store.add_user(test_user.clone());
    let validate_res = test_store.validate_user(&test_user.email, &test_user.password);
    assert_eq!(validate_res, Ok(()));
}

#[test]
fn user_store_refuses_a_taken_address() {
    let mut store = HashMapUserStore::default();
    assert_eq!(store.add_user(test_user()), Ok(()));
    assert_eq!(store.add_user(test_user()), Err(UserStoreError::UserAlreadyExists));
}

#[test]
fn user_store_reports_unknown_user_and_wrong_password() {
    let mut store = HashMapUserStore::default();
    let user = test_user();
    let other = Email::parse("other@yahoo.net".to_string()).unwrap();
    let wrong = Password::parse("notthepassword".to_string()).unwrap();
    assert!(store.get_user(&user.email) == Err(UserStoreError::UserNotFound));
    assert_eq!(
        store.validate_user(&user.email, &user.password),
        Err(UserStoreError::UserNotFound)
    );
    let _ = store.add_user(user.clone());
    assert_eq!(store.validate_user(&other, &user.password), Err(UserStoreError::UserNotFound));
    assert_eq!(
        store.validate_user(&user.email, &wrong),
        Err(UserStoreError::InvalidCredentials)
    );
}

#[test]
fn should_add_code() {
    let email = Email::parse("ken@cttm.io".to_string()).expect("email should be parsed");
    let mut store = HashmapTwoFACodeStore::default();
    let res = store.add_code(email, LoginAttemptId::default(), TwoFACode::default(), 1_000);
    assert_eq!(res, Ok(()));
}

fn id(text: &str) -> LoginAttemptId {
    LoginAttemptId::parse(text.to_string()).unwrap()
}

fn code(text: &str) -> TwoFACode {
    TwoFACode::parse(text.to_string()).unwrap()
}

const ID_A: &str = "67e55044-10b1-426f-9247-bb680e5fe0c8";
const ID_B: &str = "936da01f-9abd-4d9d-80c7-02af85c822a8";

#[test]
fn stored_code_is_read_without_removal_until_it_lapses() {
    let email = Email::parse("ken@cttm.io".to_string()).unwrap();
    let mut store = HashmapTwoFACodeStore::default();
    store.add_code(email.clone(), id(ID_A), code("123456"), 1_000).unwrap();
    let (i, c) = store.get_code(&email, 1_000).unwrap();
    assert_eq!(i.as_ref(), ID_A);
    assert_eq!(c.as_ref(), "123456");
    assert!(store.get_code(&email, 1_599).is_ok());
    assert!(store.get_code(&email, 1_600) == Err(TwoFACodeStoreError::LoginAttemptIdNotFound));
}

#[test]
fn new_code_replaces_the_pending_one() {
    let email = Email::parse("ken@cttm.io".to_string()).unwrap();
    let mut store = HashmapTwoFACodeStore::default();
    store.add_code(email.clone(), id(ID_A), code("111111"), 1_000).unwrap();
    store.add_code(email.clone(), id(ID_B), code("222222"), 1_010).unwrap();
    let (i, c) = store.get_code(&email, 1_020).unwrap();
    assert_eq!(i.as_ref(), ID_B);
    assert_eq!(c.as_ref(), "222222");
}

#[test]
fn removed_code_is_gone() {
    let email = Email::parse("ken@cttm.io".to_string()).unwrap();
    let mut store = HashmapTwoFACodeStore::default();
    store.add_code(email.clone(), id(ID_A), code("111111"), 1_000).unwrap();
    assert_eq!(store.remove_code(&email), Ok(()));
    assert!(store.get_code(&email, 1_000) == Err(TwoFACodeStoreError::LoginAttemptIdNotFound));
    assert_eq!(store.remove_code(&email), Ok(()));
}

#[test]
fn code_cannot_be_stored_when_its_expiry_overflows() {
    let email = Email::parse("ken@cttm.io".to_string()).unwrap();
    let mut store = HashmapTwoFACodeStore::default();
    let res = store.add_code(email.clone(), id(ID_A), code("111111"), u64::MAX - 599);
    assert_eq!(res, Err(TwoFACodeStoreError::UnexpectedError));
    assert!(store.get_code(&email, 0).is_err());
}

#[test]
fn banned_token_is_reported_until_its_expiry() {
    let mut store = HashsetBannedTokenStore::default();
    assert_eq!(store.contains_token("abc", 10), Ok(false));
    assert_eq!(store.add_token("abc".to_string(), 100), Ok(()));
    assert_eq!(store.contains_token("abc", 10), Ok(true));
    assert_eq!(store.contains_token("abc", 99), Ok(true));
    assert_eq!(store.contains_token("abc", 100), Ok(false));
    assert_eq!(store.contains_token("abd", 10), Ok(false));
    assert_eq!(store.add_token("abc".to_string(), 100), Ok(()));
    assert_eq!(store.contains_token("abc", 50), Ok(true));
}
