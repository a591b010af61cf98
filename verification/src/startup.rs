use vstd::prelude::*;

use crate::members::{Lookup, MemberRole, NewEmailMember};
use uuid::Uuid;

verus! {

/// What the lookup of the default admin's email decides.
#[derive(PartialEq, Eq, Structural, Clone, Copy, Debug)]
pub enum AdminLookupStep {
    /// A member with that email exists: nothing to do.
    AdminExists,
    /// The lookup failed: start-up stops with that error.
    LookupFailed,
    /// No such member: go on and look at the members that exist.
    CheckMembers,
}

/// The step after looking up the default admin by email.
pub open spec fn admin_lookup_rule<T>(lookup: Lookup<T>) -> AdminLookupStep {
    match lookup {
        Lookup::Found(_) => AdminLookupStep::AdminExists,
        Lookup::Failed => AdminLookupStep::LookupFailed,
        Lookup::Absent => AdminLookupStep::CheckMembers,
    }
}

/// Decides what to do after looking up the default admin by email.
pub fn admin_lookup_check<T>(lookup: &Lookup<T>) -> (step: AdminLookupStep)
    ensures
        step == admin_lookup_rule(*lookup),
{
    match lookup {
        Lookup::Found(_) => AdminLookupStep::AdminExists,
        Lookup::Failed => AdminLookupStep::LookupFailed,
        Lookup::Absent => AdminLookupStep::CheckMembers,
    }
}

/// The default admin to create, if any: none when members already exist, else
/// an admin with the configured email, name and photo and the hashed password.
pub fn default_admin_member(
    members_exist: bool,
    email: String,
    name: String,
    photo_url: String,
    password_hash: String,
) -> (admin: Option<NewEmailMember>)
    ensures
        members_exist ==> admin is None,
        !members_exist ==> (admin matches Some(m) && m.email == email && m.name == name
            && m.password_hash == password_hash && m.role == Some(MemberRole::Admin)
            && m.photo_url == Some(photo_url)),
{
    if members_exist {
        None
    } else {
        Some(
            NewEmailMember {
                email,
                name,
                password_hash,
                role: Some(MemberRole::Admin),
                photo_url: Some(photo_url),
            },
        )
    }
}

/// Whether start-up creates the default admin, given the lookup of its email
/// and whether any member exists.
pub open spec fn admin_created<T>(lookup: Lookup<T>, members_exist: bool) -> bool {
    admin_lookup_rule(lookup) == AdminLookupStep::CheckMembers && !members_exist
}

/// The query that finds the organization's first member: the oldest one.
pub struct MembersQuery {
    pub limit: i32,
    pub sort_by: String,
    pub ascending: bool,
}

/// The query for the member who will own a new organization: one member,
/// sorted by creation time, oldest first.
pub fn first_member_query() -> (query: MembersQuery)
    ensures
        query.limit == 1,
        query.sort_by@ == "created_at"@,
        query.ascending,
{
    MembersQuery { limit: 1, sort_by: String::from_str("created_at"), ascending: true }
}

/// The owner of a new organization: the first member that the query returned.
pub fn organization_owner(member_ids: &Vec<Uuid>) -> (owner: Uuid)
    requires
        member_ids.len() > 0,
    ensures
        owner == member_ids@[0],
{
    member_ids[0]
}

/// What is needed to set up the organization.
pub struct OrganizationInput {
    pub owner_id: Uuid,
    pub name: String,
    pub photo_url: String,
    pub email: String,
    pub description: Option<String>,
}

/// The organization that start-up creates: the configured name, email and
/// photo, owned by the given member, without a description.
pub fn organization_input(owner_id: Uuid, name: String, email: String, photo_url: String) -> (input:
    OrganizationInput)
    ensures
        input.owner_id == owner_id,
        input.name == name,
        input.email == email,
        input.photo_url == photo_url,
        input.description is None,
{
    OrganizationInput { owner_id, name, photo_url, email, description: None }
}

/// An email to send.
pub struct Email {
    pub from: String,
    pub to: Vec<String>,
    pub subject: String,
    pub html: String,
}

/// The welcome email sent to the organization's address when it is set up.
pub fn first_time_welcome_email(organization_email: String) -> (email: Email)
    ensures
        email.from@ == "onboarding@plexo.app"@,
        email.to@ == seq![organization_email],
        email.subject@ == "Welcome to Plexo!"@,
        email.html@ == "<h1>Welcome to Plexo!</h1>"@,
{
    let mut to: Vec<String> = Vec::new();
    to.push(organization_email);
    Email {
        from: String::from_str("onboarding@plexo.app"),
        to,
        subject: String::from_str("Welcome to Plexo!"),
        html: String::from_str("<h1>Welcome to Plexo!</h1>"),
    }
}

/// What start-up does about the organization once the admin is in place.
pub enum PreludeStep<O> {
    /// An organization exists: start-up ends with it.
    Ready(O),
    /// None exists: set one up.
    Initialize,
}

/// Decides, given the organization found, whether start-up must set one up.
pub fn prelude<O>(existing: Option<O>) -> (step: PreludeStep<O>)
    ensures
        match existing {
            Some(o) => step == PreludeStep::Ready(o),
            None => step is Initialize,
        },
{
    match existing {
        Some(o) => PreludeStep::Ready(o),
        None => PreludeStep::Initialize,
    }
}

} // verus!
