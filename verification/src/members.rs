use vstd::prelude::*;

verus! {

/// The role of a member in the organization.
#[derive(PartialEq, Eq, Structural, Clone, Copy, Debug)]
pub enum MemberRole {
    Admin,
    Member,
    ReadOnly,
}

/// The outcome of looking a member up: found, not there, or the lookup failed.
pub enum Lookup<T> {
    Found(T),
    Absent,
    Failed,
}

/// What is needed to create a member who signs in with an email and password.
pub struct NewEmailMember {
    pub email: String,
    pub name: String,
    pub password_hash: String,
    pub role: Option<MemberRole>,
    pub photo_url: Option<String>,
}

/// What is needed to create a member who signs in with GitHub.
pub struct NewGithubMember {
    pub github_id: String,
    pub name: String,
    pub email: String,
    pub photo_url: Option<String>,
}

} // verus!

verus! {

/// A member found for an email login: its id and its password hash, if it has one.
pub struct LoginMember {
    pub id: uuid::Uuid,
    pub password_hash: Option<String>,
}

} // verus!
