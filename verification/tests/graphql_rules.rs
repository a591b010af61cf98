use plexo_core::graphql::{
    extract_context, AssetsGraphQLMutation, AssetsGraphQLSubscription, ChangeDiff, ChangeOperation,
    ChangeResourceType, ContextFailure, LabelsGraphQLSubscription, MembersGraphQLSubscription,
    ProjectsGraphQLMutation, ProjectsGraphQLSubscription, TasksGraphQLMutation, TasksGraphQLSubscription,
    TeamsGraphQLMutation, TeamsGraphQLSubscription,
};
use plexo_core::errors::PlexoAppError;
use plexo_core::inputs::{
    AssetKind, CreateAssetInput, CreateProjectInput, CreateTaskInput, CreateTasksInput, CreateTeamInput,
    TaskPriority, TeamVisibility,
};
use uuid::Uuid;

fn task(title: &str, owner: Uuid) -> CreateTaskInput {
    CreateTaskInput {
        title: title.to_string(),
        owner_id: owner,
        status: None,
        priority: Some(TaskPriority::High),
        description: Some("d".to_string()),
        due_date: None,
        project_id: Some(Uuid::from_u128(77)),
        lead_id: None,
        parent_id: None,
        labels: Some(vec![Uuid::from_u128(5)]),
        assignees: None,
        subtasks: Some(vec![CreateTaskInput {
            title: "sub".to_string(),
            owner_id: Uuid::nil(),
            status: None,
            priority: None,
            description: None,
            due_date: None,
            project_id: None,
            lead_id: None,
            parent_id: None,
            labels: None,
            assignees: None,
            subtasks: None,
            assets: None,
        }]),
        assets: None,
    }
}

#[test]
fn context_requires_token_core_and_claims() {
    let m = Uuid::from_u128(1);
    assert_eq!(extract_context(false, true, Some(m)), Err(ContextFailure::MissingAuthorizationToken));
    assert_eq!(extract_context(true, false, Some(m)), Err(ContextFailure::CoreUnavailable));
    assert_eq!(extract_context(true, true, None), Err(ContextFailure::InvalidAuthorizationToken));
    assert_eq!(extract_context(true, true, Some(m)), Ok(m));
    assert!(matches!(
        ContextFailure::MissingAuthorizationToken.app_error(),
        Some(PlexoAppError::MissingAuthorizationToken)
    ));
    assert!(ContextFailure::CoreUnavailable.app_error().is_none());
    assert!(matches!(
        ContextFailure::InvalidAuthorizationToken.app_error(),
        Some(PlexoAppError::InvalidAuthorizationToken)
    ));
}

#[test]
fn created_task_is_owned_by_sender() {
    let me = Uuid::from_u128(9);
    let owned = TasksGraphQLMutation.create_task(task("a", Uuid::from_u128(3)), me);
    assert_eq!(owned.owner_id, me);
    assert_eq!(owned.title, "a");
    assert_eq!(owned.project_id, Some(Uuid::from_u128(77)));
    // subtasks keep their own owner
    assert_eq!(owned.subtasks.unwrap()[0].owner_id, Uuid::nil());
}

#[test]
fn batch_tasks_are_all_owned_by_sender() {
    let me = Uuid::from_u128(9);
    let input = CreateTasksInput { tasks: vec![task("a", Uuid::from_u128(1)), task("b", Uuid::from_u128(2))] };
    let owned = TasksGraphQLMutation.create_tasks(input, me);
    assert_eq!(owned.tasks.len(), 2);
    assert_eq!(owned.tasks[0].title, "a");
    assert_eq!(owned.tasks[1].title, "b");
    assert!(owned.tasks.iter().all(|t| t.owner_id == me));
    let empty = TasksGraphQLMutation.create_tasks(CreateTasksInput { tasks: vec![] }, me);
    assert!(empty.tasks.is_empty());
}

#[test]
fn task_changes_are_recorded() {
    let me = Uuid::from_u128(9);
    let t = Uuid::from_u128(100);
    let c = TasksGraphQLMutation.created_task_change(me, t);
    assert_eq!((c.owner_id, c.resource_id), (me, t));
    assert_eq!(c.operation, ChangeOperation::Insert);
    assert_eq!(c.resource_type, ChangeResourceType::Tasks);
    assert_eq!(c.diff, ChangeDiff::InputAndResult);
    let c = TasksGraphQLMutation.updated_task_change(me, t);
    assert_eq!(c.operation, ChangeOperation::Update);
    assert_eq!(c.owner_id, me);
    let owner = Uuid::from_u128(4);
    let c = TasksGraphQLMutation.deleted_task_change(owner, t);
    assert_eq!(c.operation, ChangeOperation::Delete);
    assert_eq!(c.owner_id, owner);
    assert_eq!(c.diff, ChangeDiff::ResultOnly);
}

#[test]
fn batch_changes_one_per_task() {
    let me = Uuid::from_u128(9);
    let ids = vec![Uuid::from_u128(10), Uuid::from_u128(11), Uuid::from_u128(12)];
    let changes = TasksGraphQLMutation.created_tasks_changes(me, &ids);
    assert_eq!(changes.len(), 3);
    for (c, id) in changes.iter().zip(ids.iter()) {
        assert_eq!(c.resource_id, *id);
        assert_eq!(c.owner_id, me);
        assert_eq!(c.operation, ChangeOperation::Insert);
    }
}

#[test]
fn other_creations_are_owned_by_sender() {
    let me = Uuid::from_u128(9);
    let a = AssetsGraphQLMutation.create_asset(
        CreateAssetInput { name: "logo".into(), owner_id: Uuid::nil(), kind: Some(AssetKind::Image), project_id: None },
        me,
    );
    assert_eq!(a.owner_id, me);
    assert_eq!(a.kind, Some(AssetKind::Image));
    let t = TeamsGraphQLMutation.create_team(
        CreateTeamInput {
            name: "core".into(),
            owner_id: Uuid::nil(),
            visibility: TeamVisibility::Public,
            prefix: None,
            members: None,
            projects: None,
        },
        me,
    );
    assert_eq!(t.owner_id, me);
    assert_eq!(t.name, "core");
    let p = ProjectsGraphQLMutation.create_project(
        CreateProjectInput {
            name: "plexo".into(),
            owner_id: Uuid::nil(),
            status: None,
            visibility: None,
            prefix: Some("PLX".into()),
            description: None,
            lead_id: None,
            start_date: None,
            due_date: None,
            members: None,
            teams: None,
        },
        me,
    );
    assert_eq!(p.owner_id, me);
    assert_eq!(p.prefix.as_deref(), Some("PLX"));
}

#[test]
fn event_streams_yield_zero_to_nine() {
    let expected: Vec<i32> = (0..10).collect();
    assert_eq!(TasksGraphQLSubscription.events1(), expected);
    assert_eq!(LabelsGraphQLSubscription.events_label(), expected);
    assert_eq!(MembersGraphQLSubscription.events_member(), expected);
    assert_eq!(ProjectsGraphQLSubscription.events_project(), expected);
}

#[test]
fn change_streams_follow_their_resource() {
    assert_eq!(AssetsGraphQLSubscription.assets(), ChangeResourceType::Assets);
    assert_eq!(TeamsGraphQLSubscription.teams(), ChangeResourceType::Teams);
}
