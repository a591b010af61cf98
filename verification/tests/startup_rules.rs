use plexo_core::members::{Lookup, MemberRole};
use plexo_core::startup::{
    admin_lookup_check, default_admin_member, first_member_query, first_time_welcome_email,
    organization_input, organization_owner, prelude, AdminLookupStep, PreludeStep,
};
use uuid::Uuid;

#[test]
fn admin_lookup_steps() {
    assert_eq!(admin_lookup_check(&Lookup::Found(())), AdminLookupStep::AdminExists);
    assert_eq!(admin_lookup_check::<()>(&Lookup::Failed), AdminLookupStep::LookupFailed);
    assert_eq!(admin_lookup_check::<()>(&Lookup::Absent), AdminLookupStep::CheckMembers);
}

#[test]
fn default_admin_only_without_members() {
    let none = default_admin_member(
        true,
        "admin@plexo.app".into(),
        "Admin".into(),
        "https://p/a.png".into(),
        "hash".into(),
    );
    assert!(none.is_none());
    let admin = default_admin_member(
        false,
        "admin@plexo.app".into(),
        "Admin".into(),
        "https://p/a.png".into(),
        "hash".into(),
    )
    .unwrap();
    assert_eq!(admin.email, "admin@plexo.app");
    assert_eq!(admin.name, "Admin");
    assert_eq!(admin.password_hash, "hash");
    assert_eq!(admin.role, Some(MemberRole::Admin));
    assert_eq!(admin.photo_url.as_deref(), Some("https://p/a.png"));
}

#[test]
fn organization_owned_by_first_member() {
    let q = first_member_query();
    assert_eq!(q.limit, 1);
    assert_eq!(q.sort_by, "created_at");
    assert!(q.ascending);
    let ids = vec![Uuid::from_u128(3), Uuid::from_u128(4)];
    let owner = organization_owner(&ids);
    assert_eq!(owner, Uuid::from_u128(3));
    let org = organization_input(owner, "Plexo".into(), "org@plexo.app".into(), "https://p/o.png".into());
    assert_eq!(org.owner_id, owner);
    assert_eq!(org.name, "Plexo");
    assert_eq!(org.email, "org@plexo.app");
    assert_eq!(org.photo_url, "https://p/o.png");
    assert!(org.description.is_none());
}

#[test]
fn welcome_email_goes_to_organization() {
    let e = first_time_welcome_email("org@plexo.app".into());
    assert_eq!(e.from, "onboarding@plexo.app");
    assert_eq!(e.to, vec!["org@plexo.app".to_string()]);
    assert_eq!(e.subject, "Welcome to Plexo!");
    assert_eq!(e.html, "<h1>Welcome to Plexo!</h1>");
}

#[test]
fn prelude_keeps_existing_organization() {
    assert!(matches!(prelude(Some(7)), PreludeStep::Ready(7)));
    assert!(matches!(prelude::<i32>(None), PreludeStep::Initialize));
}
