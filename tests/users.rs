use users_router::users::{is_valid_email, UserBuilder, UserBuilderError};

#[test]
fn builder_accepts_valid_user() {
    let r = UserBuilder::new().name("admin").email("a@b.org").password("pw").finalize();
    let user = r.ok().unwrap();
    assert_eq!(user.name, "admin");
    assert_eq!(user.email, "a@b.org");
    assert_eq!(user.password, "pw");
}

#[test]
fn builder_rejects_empty_name() {
    let f = UserBuilder::new().name("").email("a@b.org").password("pw").finalize().err().unwrap();
    assert_eq!(f.error, UserBuilderError::InvalidName);
    assert!(f.user.is_none());
}

#[test]
fn builder_rejects_empty_password() {
    let f = UserBuilder::new().name("n").email("").password("").finalize().err().unwrap();
    assert_eq!(f.error, UserBuilderError::InvalidPassword);
    assert!(f.user.is_none());
}

#[test]
fn builder_returns_record_on_empty_email() {
    let f = UserBuilder::new().name("n").email("").password("pw").finalize().err().unwrap();
    assert_eq!(f.error, UserBuilderError::EmptyEmail);
    let user = f.user.unwrap();
    assert_eq!(user.name, "n");
    assert_eq!(user.email, "");
    assert_eq!(user.password, "pw");
}

#[test]
fn builder_rejects_malformed_email() {
    let f = UserBuilder::new().name("n").email("nobody").password("pw").finalize().err().unwrap();
    assert_eq!(f.error, UserBuilderError::InvalidEmail);
    assert!(f.user.is_none());
}

#[test]
fn email_syntax() {
    assert!(is_valid_email("a@b"));
    assert!(is_valid_email("ünï@cødé.org"));
    assert!(!is_valid_email(""));
    assert!(!is_valid_email("@b"));
    assert!(!is_valid_email("a@"));
    assert!(!is_valid_email("a@b@c"));
    assert!(!is_valid_email("ab"));
    assert!(!is_valid_email("@"));
}
