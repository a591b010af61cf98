use vstd::prelude::*;

use crate::decimal::{i64_to_decimal, int_decimal};
use crate::members::NewGithubMember;

verus! {

/// A member of the JSON object that GitHub returns for a user, as far as the
/// sign-in reads it: absent, a string, or a value of another kind.
pub enum JsonField {
    Missing,
    Text(String),
    Other,
}

/// The user that GitHub describes: its numeric id when that is an integer that
/// fits in an `i64`, and its `email` and `name` members.
pub struct GithubUser {
    pub id: Option<i64>,
    pub email: JsonField,
    pub name: JsonField,
}

/// What a GitHub sign-in knows of the user.
pub struct GithubProfile {
    pub github_id: String,
    pub email: String,
    pub name: String,
}

/// A GitHub profile as values.
pub struct ProfileView {
    pub github_id: Seq<char>,
    pub email: Seq<char>,
    pub name: Seq<char>,
}

impl View for GithubProfile {
    type V = ProfileView;

    open spec fn view(&self) -> ProfileView {
        ProfileView { github_id: self.github_id@, email: self.email@, name: self.name@ }
    }
}

/// A new GitHub member as values.
pub struct NewGithubMemberView {
    pub github_id: Seq<char>,
    pub name: Seq<char>,
    pub email: Seq<char>,
    pub photo_url: Option<Seq<char>>,
}

impl View for NewGithubMember {
    type V = NewGithubMemberView;

    open spec fn view(&self) -> NewGithubMemberView {
        NewGithubMemberView {
            github_id: self.github_id@,
            name: self.name@,
            email: self.email@,
            photo_url: match self.photo_url {
                Some(p) => Some(p@),
                None => None,
            },
        }
    }
}

/// The email of a GitHub user that has none: its id at a placeholder domain.
pub open spec fn fallback_email(github_id: Seq<char>) -> Seq<char> {
    github_id + "@no-email.github.com"@
}

/// The text of a JSON member that must be present: its string, or `fallback`
/// when it holds something else.
pub open spec fn text_or(field: JsonField, fallback: Seq<char>) -> Seq<char> {
    match field {
        JsonField::Text(s) => s@,
        _ => fallback,
    }
}

/// Whether the sign-in can read a profile from `user`: the id must be an
/// integer and both `email` and `name` must be present.
pub open spec fn readable_user(user: GithubUser) -> bool {
    &&& user.id is Some
    &&& !(user.email is Missing)
    &&& !(user.name is Missing)
}

/// The profile read from a GitHub user: the id in decimal, the email (or the
/// id at `no-email.github.com` when it is not a string) and the name (or the id
/// when it is not a string).
pub open spec fn profile_rule(user: GithubUser) -> ProfileView {
    let github_id = int_decimal(user.id.unwrap() as int);
    ProfileView {
        github_id,
        email: text_or(user.email, fallback_email(github_id)),
        name: text_or(user.name, github_id),
    }
}

/// The member that a first GitHub sign-in creates from a profile.
pub open spec fn new_member_rule(profile: ProfileView) -> NewGithubMemberView {
    NewGithubMemberView {
        github_id: profile.github_id,
        name: profile.name,
        email: profile.email,
        photo_url: None,
    }
}

/// Reads the profile of a GitHub user: the id written in decimal, the email
/// (or the id at `no-email.github.com` when it is not a string) and the name
/// (or the id when it is not a string).
pub fn github_profile(user: GithubUser) -> (profile: GithubProfile)
    requires
        readable_user(user),
    ensures
        profile@ == profile_rule(user),
{
    let github_id = match user.id {
        Some(id) => i64_to_decimal(id),
        None => String::new(),
    };
    let email = match user.email {
        JsonField::Text(s) => s,
        _ => {
            let mut placeholder = github_id.clone();
            placeholder.append("@no-email.github.com");
            placeholder
        },
    };
    let name = match user.name {
        JsonField::Text(s) => s,
        _ => github_id.clone(),
    };
    GithubProfile { github_id, email, name }
}

/// The member that a first GitHub sign-in creates: the profile's id, name and
/// email, and no photo.
pub fn github_member_input(profile: GithubProfile) -> (input: NewGithubMember)
    ensures
        input@ == new_member_rule(profile@),
{
    NewGithubMember {
        github_id: profile.github_id,
        name: profile.name,
        email: profile.email,
        photo_url: None,
    }
}

} // verus!
