use room_booking_core::admins::{
    AdminDirectory, LoginCredentials as AdminLoginCredentials, RegisterAdminRequest,
};
use room_booking_core::users::{
    AccountError, LoginCredentials, NewUser, RegisterUserRequest, UserDirectory,
};

#[test]
fn register_and_login_round_trip() {
    let mut dir = UserDirectory::new();
    let user = dir
        .register_user(
            RegisterUserRequest { username: "alice".to_string(), password: "s3cret".to_string() },
            100,
        )
        .expect("registration succeeds");
    assert_eq!(user.id, 1);
    assert_eq!(user.username, "alice");
    assert_ne!(user.password_hash, "s3cret");

    let id = dir
        .login_user(&LoginCredentials {
            username: "alice".to_string(),
            password: "s3cret".to_string(),
        })
        .expect("correct password logs in");
    assert_eq!(id, 1);
}

#[test]
fn wrong_password_and_unknown_user_get_the_same_answer() {
    let mut dir = UserDirectory::new();
    dir.register_user(
        RegisterUserRequest { username: "alice".to_string(), password: "s3cret".to_string() },
        100,
    )
    .expect("registration");
    let wrong = dir.login_user(&LoginCredentials {
        username: "alice".to_string(),
        password: "wrong".to_string(),
    });
    assert_eq!(wrong.unwrap_err(), AccountError::InvalidCredentials);
    let unknown = dir.login_user(&LoginCredentials {
        username: "bob".to_string(),
        password: "s3cret".to_string(),
    });
    assert_eq!(unknown.unwrap_err(), AccountError::InvalidCredentials);
}

#[test]
fn duplicate_username_is_refused() {
    let mut dir = UserDirectory::new();
    dir.register_user(
        RegisterUserRequest { username: "alice".to_string(), password: "one".to_string() },
        100,
    )
    .expect("first registration");
    let again = dir.register_user(
        RegisterUserRequest { username: "alice".to_string(), password: "two".to_string() },
        200,
    );
    assert_eq!(again.unwrap_err(), AccountError::DuplicateUsername);
}

#[test]
fn insert_user_stores_the_row_as_given() {
    let mut dir = UserDirectory::new();
    let stored = dir
        .insert_user(
            NewUser { username: "carol".to_string(), password_hash: "$2b$osalt".to_string() },
            700,
        )
        .expect("insert");
    assert_eq!(stored.id, 1);
    assert_eq!(stored.password_hash, "$2b$osalt");
    assert_eq!(stored.created_at, 700);
}

#[test]
fn user_listing_and_lookup_respect_tombstones() {
    let mut dir = UserDirectory::new();
    dir.register_user(
        RegisterUserRequest { username: "alice".to_string(), password: "a".to_string() },
        100,
    )
    .expect("alice");
    dir.register_user(
        RegisterUserRequest { username: "bob".to_string(), password: "b".to_string() },
        200,
    )
    .expect("bob");
    assert!(dir.soft_delete_user(1, 300));

    let all = dir.get_all_users();
    assert_eq!(all.len(), 1);
    assert_eq!(all[0].username, "bob");

    assert_eq!(dir.get_user_by_id(1).unwrap_err(), AccountError::NotFound);
    assert_eq!(dir.get_user_by_id(2).unwrap().username, "bob");
}

#[test]
fn get_all_users_runs_newest_first() {
    let mut dir = UserDirectory::new();
    for (name, t) in [("alice", 100), ("bob", 200), ("carol", 300)] {
        dir.register_user(
            RegisterUserRequest { username: name.to_string(), password: "pw".to_string() },
            t,
        )
        .expect("registration");
    }
    let all = dir.get_all_users();
    assert_eq!(all.len(), 3);
    assert_eq!(all[0].username, "carol");
    assert_eq!(all[2].username, "alice");
}

#[test]
fn delete_user_reports_missing_rows() {
    let mut dir = UserDirectory::new();
    dir.register_user(
        RegisterUserRequest { username: "alice".to_string(), password: "a".to_string() },
        100,
    )
    .expect("alice");
    dir.delete_user(1, 200).expect("first delete");
    assert_eq!(dir.delete_user(1, 300).unwrap_err(), AccountError::NotFound);
    assert_eq!(dir.delete_user(7, 300).unwrap_err(), AccountError::NotFound);
}

#[test]
fn deleted_username_stays_reserved() {
    let mut dir = UserDirectory::new();
    dir.register_user(
        RegisterUserRequest { username: "alice".to_string(), password: "a".to_string() },
        100,
    )
    .expect("alice");
    assert!(dir.soft_delete_user(1, 200));
    let again = dir.register_user(
        RegisterUserRequest { username: "alice".to_string(), password: "b".to_string() },
        300,
    );
    assert_eq!(again.unwrap_err(), AccountError::DuplicateUsername);
}

#[test]
fn admin_register_and_login() {
    let mut dir = AdminDirectory::new();
    let admin = dir
        .register_admin(
            RegisterAdminRequest { username: "root".to_string(), password: "pw".to_string() },
            100,
        )
        .expect("admin registration");
    assert_eq!(admin.id, 1);

    let id = dir
        .login_admin(&AdminLoginCredentials {
            username: "root".to_string(),
            password: "pw".to_string(),
        })
        .expect("admin login");
    assert_eq!(id, 1);

    let wrong = dir.login_admin(&AdminLoginCredentials {
        username: "root".to_string(),
        password: "nope".to_string(),
    });
    assert_eq!(wrong.unwrap_err(), AccountError::InvalidCredentials);
}

#[test]
fn duplicate_admin_username_is_refused() {
    let mut dir = AdminDirectory::new();
    dir.register_admin(
        RegisterAdminRequest { username: "root".to_string(), password: "pw".to_string() },
        100,
    )
    .expect("first admin");
    let again = dir.register_admin(
        RegisterAdminRequest { username: "root".to_string(), password: "other".to_string() },
        200,
    );
    assert_eq!(again.unwrap_err(), AccountError::DuplicateUsername);
}

#[test]
fn account_error_messages() {
    assert_eq!(AccountError::DuplicateUsername.message(), "Username already taken");
    assert_eq!(AccountError::InvalidCredentials.message(), "Invalid username or password");
    assert_eq!(AccountError::NotFound.message(), "User not found");
    assert_eq!(AccountError::HashFailure.message(), "Password hashing failed");
}
