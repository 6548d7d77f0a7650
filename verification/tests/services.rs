use user_crud::schema::CreateUpdateUserSchema;
use user_crud::user_service::create_user_service;
use user_crud::user_service::delete_user_by_id_service;
use user_crud::user_service::get_all_user_service;
use user_crud::user_service::get_user_by_id_service;
use user_crud::user_service::update_user_service;
use user_crud::user_service::CreateUserStep;
use user_crud::user_validator::create_validation;
use user_crud::user_validator::update_validation;
use user_crud::validation_chain::CountOutcome;
use user_crud::validation_chain::ValidateStep;

fn valid_body() -> CreateUpdateUserSchema {
    CreateUpdateUserSchema {
        username: "johndoe".to_string(),
        email: "john@example.com".to_string(),
        phone: "+6281234567890".to_string(),
        password: "Password1!".to_string(),
    }
}

#[test]
fn get_all_users_builds_the_select() {
    assert_eq!(get_all_user_service(), "SELECT * FROM users;");
}

#[test]
fn get_user_by_id_builds_the_select() {
    assert_eq!(get_user_by_id_service(42), "SELECT * FROM users WHERE id = 42;");
}

#[test]
fn create_asks_for_the_email_count_then_accepts_a_valid_record() {
    let body = valid_body();
    let mut counts: Vec<CountOutcome> = vec![];
    match create_user_service(&body, &counts) {
        CreateUserStep::NeedCount { query, value } => {
            assert_eq!(query, "SELECT COUNT(*) FROM users WHERE email = ?");
            assert_eq!(value, "john@example.com");
        }
        _ => panic!("expected a count request before any verdict"),
    }
    counts.push(CountOutcome::Count(0));
    match create_user_service(&body, &counts) {
        CreateUserStep::Done(Ok(stmt)) => {
            assert!(stmt.starts_with(
                "INSERT INTO users (username, email, phone, password) VALUES \
                 ('johndoe', 'john@example.com', '+6281234567890', '"
            ));
            assert!(stmt.ends_with("');"));
            // the stored password is the hash, never the submitted text
            assert!(!stmt.contains("Password1!"));
        }
        CreateUserStep::Done(Err(m)) => panic!("expected success, got: {}", m),
        CreateUserStep::NeedCount { .. } => panic!("the one count was already supplied"),
    }
}

#[test]
fn create_rejects_a_registered_email_and_update_accepts_it() {
    let body = valid_body();
    let counts = vec![CountOutcome::Count(1)];
    match create_user_service(&body, &counts) {
        CreateUserStep::Done(Err(m)) => assert_eq!(m, "email is already taken"),
        _ => panic!("expected the uniqueness failure"),
    }
    // the update rules have no uniqueness check, so no store outcome is
    // needed and the same record passes
    assert!(update_validation(&body).is_ok());
}

#[test]
fn create_reports_a_store_failure_during_the_uniqueness_check() {
    let body = valid_body();
    let counts = vec![CountOutcome::StoreError];
    match create_user_service(&body, &counts) {
        CreateUserStep::Done(Err(m)) => assert_eq!(m, "Failed to check uniqueness of email"),
        _ => panic!("expected the store failure to surface"),
    }
}

#[test]
fn create_validation_collects_all_field_errors() {
    let body = CreateUpdateUserSchema {
        username: "ab".to_string(),
        email: "not-an-email".to_string(),
        phone: "12".to_string(),
        password: "alllowercase1".to_string(),
    };
    // the email format rule fails before the uniqueness rule, so no count
    // query is requested
    match create_validation(&body, &vec![]) {
        ValidateStep::Done(Err(m)) => assert_eq!(
            m,
            "username must be at least 3 characters long; \
             email is not a valid email; \
             password must contain an uppercase letter; \
             phone must be at least 10 characters long"
        ),
        _ => panic!("expected a combined validation error"),
    }
}

#[test]
fn create_validation_reports_missing_required_fields() {
    let body = CreateUpdateUserSchema {
        username: String::new(),
        email: String::new(),
        phone: String::new(),
        password: String::new(),
    };
    match create_validation(&body, &vec![]) {
        ValidateStep::Done(Err(m)) => {
            assert!(m.contains("username is required"));
            assert!(m.contains("email is required"));
            assert!(m.contains("password is required"));
            assert!(m.contains("phone is required"));
        }
        _ => panic!("expected required-field failures"),
    }
}

#[test]
fn update_validation_reports_field_errors_without_the_store() {
    let body = CreateUpdateUserSchema {
        username: "ab".to_string(),
        email: "john@example.com".to_string(),
        phone: "+6281234567890".to_string(),
        password: "Password1!".to_string(),
    };
    assert_eq!(
        update_validation(&body).unwrap_err(),
        "username must be at least 3 characters long"
    );
}

#[test]
fn updating_a_nonexistent_id_fails_before_any_statement_is_built() {
    let body = valid_body();
    assert_eq!(
        update_user_service(5, &body, false).unwrap_err(),
        "User with id 5 does not exist"
    );
}

#[test]
fn deleting_a_nonexistent_id_fails_before_any_statement_is_built() {
    assert_eq!(
        delete_user_by_id_service(5, false).unwrap_err(),
        "User with id 5 does not exist"
    );
}

#[test]
fn not_found_messages_render_negative_ids() {
    assert_eq!(
        delete_user_by_id_service(-7, false).unwrap_err(),
        "User with id -7 does not exist"
    );
}

#[test]
fn deleting_an_existing_id_builds_the_delete() {
    assert_eq!(
        delete_user_by_id_service(9, true).unwrap(),
        "DELETE FROM users WHERE id = 9;"
    );
}

#[test]
fn updating_an_existing_valid_record_builds_the_update() {
    let body = valid_body();
    let stmt = update_user_service(3, &body, true).unwrap();
    assert!(stmt.starts_with(
        "UPDATE users SET username = 'johndoe', email = 'john@example.com', \
         phone = '+6281234567890', password = '"
    ));
    assert!(stmt.ends_with("' WHERE id = 3;"));
    assert!(!stmt.contains("Password1!"));
}

#[test]
fn update_rejects_an_invalid_record_after_the_existence_check() {
    let body = CreateUpdateUserSchema {
        username: "ab".to_string(),
        email: "john@example.com".to_string(),
        phone: "+6281234567890".to_string(),
        password: "Password1!".to_string(),
    };
    assert_eq!(
        update_user_service(3, &body, true).unwrap_err(),
        "username must be at least 3 characters long"
    );
    // the missing id is reported even when the record is also invalid
    assert_eq!(
        update_user_service(3, &body, false).unwrap_err(),
        "User with id 3 does not exist"
    );
}
