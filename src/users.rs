//! Candidate user records and the builder that validates them.
use vstd::prelude::*;
use vstd::string::*;

verus! {

/// A user ready to be stored.
pub struct UserRecord {
    pub name: String,
    pub email: String,
    pub password: String,
}

impl View for UserRecord {
    type V = (Seq<char>, Seq<char>, Seq<char>);

    open spec fn view(&self) -> (Seq<char>, Seq<char>, Seq<char>) {
        (self.name@, self.email@, self.password@)
    }
}

/// Why a candidate record was not accepted as it stands.
#[derive(PartialEq, Eq, Structural, Clone, Copy, Debug)]
pub enum UserBuilderError {
    InvalidName,
    InvalidPassword,
    InvalidEmail,
    /// No email was given. The only outcome a caller may waive: the record
    /// comes back with it.
    EmptyEmail,
}

/// A rejected candidate: the reason, and the record itself where the reason
/// is `EmptyEmail`.
pub struct UserBuildFailure {
    pub error: UserBuilderError,
    pub user: Option<UserRecord>,
}

/// An address is well formed when it holds exactly one `@`, with text on
/// both sides of it.
pub open spec fn valid_email(e: Seq<char>) -> bool {
    exists|i: int|
        0 < i < e.len() - 1 && e[i] == '@' && (forall|j: int|
            0 <= j < e.len() && j != i ==> #[trigger] e[j] != '@')
}

/// The verdict on a candidate, checked in this order: name, password, then
/// email (absent before malformed).
pub open spec fn build_error(name: Seq<char>, email: Seq<char>, password: Seq<char>) -> Option<
    UserBuilderError,
> {
    if name.len() == 0 {
        Some(UserBuilderError::InvalidName)
    } else if password.len() == 0 {
        Some(UserBuilderError::InvalidPassword)
    } else if email.len() == 0 {
        Some(UserBuilderError::EmptyEmail)
    } else if !valid_email(email) {
        Some(UserBuilderError::InvalidEmail)
    } else {
        None
    }
}

/// Whether the address is well formed.
pub fn is_valid_email(e: &str) -> (r: bool)
    ensures
        r == valid_email(e@),
{
    let n = e.unicode_len();
    let mut at: usize = 0;
    let mut count: usize = 0;
    let mut i: usize = 0;
    while i < n
        invariant
            n == e@.len(),
            i <= n,
            count <= i,
            count == 0 ==> forall|j: int| 0 <= j < i ==> #[trigger] e@[j] != '@',
            count >= 1 ==> at < i && e@[at as int] == '@',
            count == 1 ==> forall|j: int| 0 <= j < i && j != at ==> #[trigger] e@[j] != '@',
            count >= 2 ==> exists|j: int| 0 <= j < i && j != at && #[trigger] e@[j] == '@',
        decreases n - i,
    {
        if e.get_char(i) == '@' {
            if count == 0 {
                at = i;
            } else {
                assert(e@[i as int] == '@');
            }
            if count < 2 {
                count = count + 1;
            }
        }
        i = i + 1;
    }
    if count == 1 && at > 0 && at + 1 < n {
        assert(0 < at < e@.len() - 1 && e@[at as int] == '@');
        true
    } else {
        if count == 1 {
            assert forall|k: int| 0 < k < e@.len() - 1 && e@[k] == '@' implies k == at by {}
        } else if count >= 2 {
            let ghost j = choose|j: int| 0 <= j < n && j != at && #[trigger] e@[j] == '@';
            assert forall|k: int| 0 < k < e@.len() - 1 && e@[k] == '@' implies !(forall|m: int|
                0 <= m < e@.len() && m != k ==> #[trigger] e@[m] != '@') by {
                if k == at {
                    assert(e@[j] == '@');
                } else {
                    assert(e@[at as int] == '@');
                }
            }
        }
        false
    }
}

/// Collects the fields of a candidate user, then validates them.
pub struct UserBuilder {
    pub name: String,
    pub email: String,
    pub password: String,
}

impl UserBuilder {
    /// A builder with every field empty.
    pub fn new() -> (r: UserBuilder)
        ensures
            r.name@.len() == 0,
            r.email@.len() == 0,
            r.password@.len() == 0,
    {
        UserBuilder { name: String::new(), email: String::new(), password: String::new() }
    }

    pub fn name(self, name: &str) -> (r: UserBuilder)
        ensures
            r.name@ == name@,
            r.email == self.email,
            r.password == self.password,
    {
        UserBuilder { name: name.to_owned(), ..self }
    }

    pub fn email(self, email: &str) -> (r: UserBuilder)
        ensures
            r.email@ == email@,
            r.name == self.name,
            r.password == self.password,
    {
        UserBuilder { email: email.to_owned(), ..self }
    }

    pub fn password(self, password: &str) -> (r: UserBuilder)
        ensures
            r.password@ == password@,
            r.name == self.name,
            r.email == self.email,
    {
        UserBuilder { password: password.to_owned(), ..self }
    }

    /// Validates the fields. A valid candidate becomes a record; otherwise
    /// the reason comes back, with the record where the only fault is a
    /// missing email.
    pub fn finalize(self) -> (r: Result<UserRecord, UserBuildFailure>)
        ensures
            r is Ok <==> build_error(self.name@, self.email@, self.password@) is None,
            r matches Ok(u) ==> u@ == (self.name@, self.email@, self.password@),
            r matches Err(f) ==> {
                &&& Some(f.error) == build_error(self.name@, self.email@, self.password@)
                &&& (f.user is Some <==> f.error == UserBuilderError::EmptyEmail)
                &&& f.user matches Some(u) ==> u@ == (self.name@, self.email@, self.password@)
            },
    {
        let error = if self.name.as_str().is_empty() {
            Some(UserBuilderError::InvalidName)
        } else if self.password.as_str().is_empty() {
            Some(UserBuilderError::InvalidPassword)
        } else if self.email.as_str().is_empty() {
            Some(UserBuilderError::EmptyEmail)
        } else if !is_valid_email(self.email.as_str()) {
            Some(UserBuilderError::InvalidEmail)
        } else {
            None
        };
        let user = UserRecord { name: self.name, email: self.email, password: self.password };
        match error {
            None => Ok(user),
            Some(UserBuilderError::EmptyEmail) => Err(
                UserBuildFailure { error: UserBuilderError::EmptyEmail, user: Some(user) },
            ),
            Some(e) => Err(UserBuildFailure { error: e, user: None }),
        }
    }
}

} // verus!
