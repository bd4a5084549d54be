use auth_core::common::ErrorResponse;
use auth_core::middleware::authentication::{Admission, Authentication};
use auth_core::models::user::User;
use auth_core::modules::auth::dto::{LoginDto, UserDto};
use auth_core::modules::auth::password;
use auth_core::modules::auth::password::HashedPassword;
use auth_core::modules::auth::service::{
    create_user, created, credentials_match, entity_for, grant, login, login_at, verify_jwt,
    InsertOutcome,
};
use auth_core::modules::auth::token::{issue, verify};

const SECRET: &str = "secret";

fn unauthorized() -> ErrorResponse {
    ErrorResponse { status: "401".to_string(), message: "Unauthorize".to_string() }
}

fn conflict() -> ErrorResponse {
    ErrorResponse { status: "400".to_string(), message: "User exist".to_string() }
}

fn dto(username: &str, password: &str) -> UserDto {
    UserDto {
        email: "test@grindy.io".to_string(),
        first_name: "grindy".to_string(),
        last_name: "io".to_string(),
        password: password.to_string(),
        username: username.to_string(),
    }
}

/// A stand-in for the credential store: records in a vector, ids counted up.
struct Records {
    users: Vec<User>,
}

impl Records {
    fn find(&self, username: &str) -> Option<User> {
        self.users.iter().find(|u| u.username == username).cloned()
    }

    fn insert(&mut self, mut entity: User) -> InsertOutcome {
        if self.find(&entity.username).is_some() {
            return InsertOutcome::Failed {
                code: Some(11000),
                message: "E11000 duplicate key error".to_string(),
            };
        }
        let id = format!("{:024x}", self.users.len() + 1);
        entity.id = Some(id.clone());
        self.users.push(entity);
        InsertOutcome::Inserted { id }
    }

    fn register(&mut self, user_dto: UserDto) -> Result<String, ErrorResponse> {
        let existing = self.find(&user_dto.username);
        let entity = create_user(user_dto, existing)?;
        created(self.insert(entity))
    }

    fn login(&self, username: &str, password: &str) -> Result<String, ErrorResponse> {
        let params = LoginDto { username: username.to_string(), password: password.to_string() };
        let found = self.find(username);
        login(params, SECRET.to_string(), 60, found)
    }
}

#[test]
fn test_auth() {
    let mut db = Records { users: Vec::new() };
    let test_user = dto("1700000000000", "123");
    let _ = db.register(test_user.clone());
    let token = db.login(&test_user.username, &test_user.password);

    let id = verify_jwt(token.unwrap(), SECRET.to_string()).unwrap();

    let db_user = db.users.iter().find(|u| u.id.as_deref() == Some(id.as_str()));
    match db_user {
        Some(u) => assert_eq!(test_user.username.clone(), u.username.clone()),
        None => panic!("User doesn't exits"),
    }
}

#[test]
fn register_then_login_then_reach_a_route() {
    let mut db = Records { users: Vec::new() };
    let id = db.register(dto("alice", "Secret1")).unwrap();
    assert_eq!(id, "000000000000000000000001");

    let token = db.login("alice", "Secret1").unwrap();
    assert!(!token.is_empty());
    let parts: Vec<&str> = token.split('.').collect();
    assert_eq!(parts.len(), 3);
    assert!(parts.iter().all(|part| !part.is_empty()));

    assert_eq!(db.login("alice", "wrong"), Err(unauthorized()));

    let header = format!("Bearer {}", token);
    assert_eq!(
        Authentication::call("GET", "/api/auth/me", Some(&header), SECRET),
        Admission::Pass { subject: Some(id.clone()) }
    );
    assert_eq!(verify_jwt(token, SECRET.to_string()), Ok(id));
}

#[test]
fn token_is_rejected_once_its_time_is_over() {
    let found = Some(stored("alice", "Secret1", "000000000000000000000001"));
    let params = LoginDto { username: "alice".to_string(), password: "Secret1".to_string() };
    let token = login_at(&params, SECRET, 60, &found, 1_700_000_000).unwrap();
    let header = format!("Bearer {}", token);
    assert_eq!(
        Authentication::check("GET", "/api/auth/me", Some(&header), SECRET, 1_700_003_599),
        Admission::Pass { subject: Some("000000000000000000000001".to_string()) }
    );
    assert_eq!(
        Authentication::check("GET", "/api/auth/me", Some(&header), SECRET, 1_700_003_600),
        Admission::Reject
    );
    assert_eq!(
        Authentication::call("GET", "/api/auth/me", Some(&header), SECRET),
        Admission::Reject
    );
}

fn stored(username: &str, password: &str, id: &str) -> User {
    let mut user = create_user(dto(username, password), None).unwrap();
    user.id = Some(id.to_string());
    user
}

#[test]
fn registering_a_username_twice_is_a_conflict() {
    let mut db = Records { users: Vec::new() };
    assert!(db.register(dto("alice", "Secret1")).is_ok());
    assert_eq!(db.register(dto("alice", "Secret1")), Err(conflict()));
    assert_eq!(db.register(dto("alice", "Other2")), Err(conflict()));
    assert_eq!(db.users.iter().filter(|u| u.username == "alice").count(), 1);
    assert!(db.register(dto("bob", "Secret1")).is_ok());
    assert_eq!(db.users.len(), 2);
}

#[test]
fn every_registered_pair_logs_in_as_its_id() {
    let mut db = Records { users: Vec::new() };
    let pairs = [("alice", "Secret1"), ("bob", ""), ("carol", "p\u{e4}ss w\u{f6}rd"), ("", "x")];
    let mut ids = Vec::new();
    for (username, password) in pairs {
        ids.push(db.register(dto(username, password)).unwrap());
    }
    for ((username, password), id) in pairs.iter().zip(ids) {
        let token = db.login(username, password).unwrap();
        assert_eq!(verify_jwt(token, SECRET.to_string()), Ok(id));
    }
    assert_eq!(db.login("alice", ""), Err(unauthorized()));
    assert_eq!(db.login("bob", "Secret1"), Err(unauthorized()));
}

#[test]
fn create_user_builds_the_record_to_insert() {
    let entity = create_user(dto("alice", "Secret1"), None).unwrap();
    assert_eq!(entity.id, None);
    assert_eq!(entity.username, "alice");
    assert_eq!(entity.email, "test@grindy.io");
    assert_eq!(entity.first_name, "grindy");
    assert_eq!(entity.last_name, "io");
    assert_ne!(entity.password, "Secret1");
    assert!(password::verify("Secret1", &entity.password));
    assert!(entity.password.contains(&entity.salt_nonce));
}

#[test]
fn create_user_refuses_a_taken_username() {
    let existing = stored("alice", "Other2", "000000000000000000000007");
    assert_eq!(create_user(dto("alice", "Secret1"), Some(existing)), Err(conflict()));
}

#[test]
fn entity_for_takes_what_the_hasher_gave() {
    let hashed = HashedPassword { hash: "the hash".to_string(), salt: "the salt".to_string() };
    assert_eq!(
        entity_for(dto("alice", "Secret1"), Some(hashed)),
        Ok(User {
            id: None,
            first_name: "grindy".to_string(),
            last_name: "io".to_string(),
            username: "alice".to_string(),
            email: "test@grindy.io".to_string(),
            password: "the hash".to_string(),
            salt_nonce: "the salt".to_string(),
        })
    );
    assert_eq!(
        entity_for(dto("alice", "Secret1"), None),
        Err(ErrorResponse {
            status: "500".to_string(),
            message: "Password could not be hashed".to_string(),
        })
    );
}

#[test]
fn created_maps_the_reply_of_the_store() {
    assert_eq!(created(InsertOutcome::Inserted { id: "abc".to_string() }), Ok("abc".to_string()));
    assert_eq!(
        created(InsertOutcome::Failed { code: Some(11000), message: "E11000".to_string() }),
        Err(conflict())
    );
    assert_eq!(
        created(InsertOutcome::Failed { code: Some(11001), message: "write failed".to_string() }),
        Err(ErrorResponse { status: "500".to_string(), message: "write failed".to_string() })
    );
    assert_eq!(
        created(InsertOutcome::Failed { code: None, message: "timed out".to_string() }),
        Err(ErrorResponse { status: "500".to_string(), message: "timed out".to_string() })
    );
}

#[test]
fn login_of_an_unknown_user_is_unauthorized() {
    let params = LoginDto { username: "nobody".to_string(), password: "Secret1".to_string() };
    assert!(!credentials_match(&params, &None));
    assert_eq!(login_at(&params, SECRET, 60, &None, 1000), Err(unauthorized()));
    assert_eq!(login(params, SECRET.to_string(), 60, None), Err(unauthorized()));
}

#[test]
fn login_with_a_wrong_password_is_unauthorized() {
    let found = Some(stored("alice", "Secret1", "000000000000000000000001"));
    let params = LoginDto { username: "alice".to_string(), password: "wrong".to_string() };
    assert!(!credentials_match(&params, &found));
    assert_eq!(login_at(&params, SECRET, 60, &found, 1000), Err(unauthorized()));
}

#[test]
fn login_with_a_corrupt_stored_hash_is_unauthorized() {
    let mut user = stored("alice", "Secret1", "000000000000000000000001");
    user.password = "corrupt".to_string();
    let params = LoginDto { username: "alice".to_string(), password: "Secret1".to_string() };
    assert_eq!(login_at(&params, SECRET, 60, &Some(user), 1000), Err(unauthorized()));
}

#[test]
fn login_at_issues_the_token_of_the_id() {
    let found = Some(stored("alice", "Secret1", "000000000000000000000001"));
    let params = LoginDto { username: "alice".to_string(), password: "Secret1".to_string() };
    assert!(credentials_match(&params, &found));
    let token = login_at(&params, SECRET, 2, &found, 1000).unwrap();
    assert_eq!(token, issue("000000000000000000000001", 1000, 2, SECRET).unwrap());
    assert_eq!(verify(&token, 1119, SECRET), Ok("000000000000000000000001".to_string()));
    assert!(verify(&token, 1120, SECRET).is_err());
}

#[test]
fn grant_follows_the_judgement() {
    assert_eq!(grant(false, "abc", 1000, 2, SECRET), Err(unauthorized()));
    assert_eq!(grant(true, "abc", 1000, 2, SECRET), issue("abc", 1000, 2, SECRET));
    assert_eq!(
        grant(true, "abc", usize::MAX, 2, SECRET),
        Err(ErrorResponse {
            status: "500".to_string(),
            message: "Token could not be issued".to_string(),
        })
    );
}
