use vstd::prelude::*;

verus! {

/// A user as the user table holds it.
#[derive(Debug, Clone)]
pub struct User {
    pub id: i32,
    pub salt: Option<String>,
    pub hash: Option<Vec<u8>>,
    pub account: String,
    pub mobile: Option<String>,
    pub role: String,
}

/// A user that is to be added to the user table.
#[derive(Debug)]
pub struct InsertableUser {
    pub salt: Option<String>,
    pub hash: Option<Vec<u8>>,
    pub account: String,
    pub mobile: Option<String>,
    pub role: String,
}

/// What is shown of a user: the stored user without salt and hash.
pub struct OutUser {
    pub id: i32,
    pub account: String,
    pub mobile: Option<String>,
    pub role: String,
}

impl From<User> for OutUser {
    fn from(user: User) -> (out: Self) {
        OutUser { id: user.id, account: user.account, mobile: user.mobile, role: user.role }
    }
}

impl vstd::std_specs::convert::FromSpecImpl<User> for OutUser {
    open spec fn obeys_from_spec() -> bool {
        true
    }

    open spec fn from_spec(user: User) -> Self {
        OutUser { id: user.id, account: user.account, mobile: user.mobile, role: user.role }
    }
}

/// The fields of a user that an update changes; an empty field stays.
pub struct UserForm {
    pub salt: Option<String>,
    pub hash: Option<Vec<u8>>,
    pub account: Option<String>,
    pub mobile: Option<String>,
    pub role: Option<String>,
}

/// Identity and role of a user, as a session carries them.
#[derive(Debug)]
pub struct SlimUser {
    pub id: i32,
    pub role: String,
}

impl Clone for SlimUser {
    fn clone(&self) -> (copy: Self)
        ensures
            copy.id == self.id,
            copy.role@ == self.role@,
    {
        SlimUser { id: self.id, role: self.role.clone() }
    }
}

impl From<User> for SlimUser {
    fn from(user: User) -> (slim: Self) {
        SlimUser { id: user.id, role: user.role }
    }
}

impl vstd::std_specs::convert::FromSpecImpl<User> for SlimUser {
    open spec fn obeys_from_spec() -> bool {
        true
    }

    open spec fn from_spec(user: User) -> Self {
        SlimUser { id: user.id, role: user.role }
    }
}

/// The user of a request: nobody where the request carries no session.
pub struct LoggedUser(pub Option<SlimUser>);

impl Default for LoggedUser {
    fn default() -> (nobody: Self)
        ensures
            nobody.0.is_none(),
    {
        LoggedUser(None)
    }
}

impl From<SlimUser> for LoggedUser {
    fn from(slim_user: SlimUser) -> (logged: Self) {
        LoggedUser(Some(slim_user))
    }
}

impl vstd::std_specs::convert::FromSpecImpl<SlimUser> for LoggedUser {
    open spec fn obeys_from_spec() -> bool {
        true
    }

    open spec fn from_spec(slim_user: SlimUser) -> Self {
        LoggedUser(Some(slim_user))
    }
}

/// For each role, the methods that a user of that role may call.
#[derive(Debug, Clone)]
pub struct AuthConfig {
    pub sup: Option<Vec<String>>,
    pub admin: Option<Vec<String>>,
    pub teacher: Option<Vec<String>>,
    pub student: Option<Vec<String>>,
    pub net_friend: Option<Vec<String>>,
    pub others: Option<Vec<String>>,
}

/// How often a user has submitted and has been accepted, in all and for
/// each grade of difficulty.
#[derive(Debug, Clone, Copy)]
pub struct UserSubmissionCount {
    pub total_submit_times: i32,
    pub total_accept_times: i32,
    pub navie_submit_times: i32,
    pub navie_accept_times: i32,
    pub easy_submit_times: i32,
    pub easy_accept_times: i32,
    pub middle_submit_times: i32,
    pub middle_accept_times: i32,
    pub hard_submit_times: i32,
    pub hard_accept_times: i32,
}

} // verus!
