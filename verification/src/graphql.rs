use vstd::prelude::*;

use crate::errors::{sdk_error_message, PlexoAppError, SDKError};
use crate::inputs::{CreateAssetInput, CreateProjectInput, CreateTaskInput, CreateTasksInput, CreateTeamInput};
use uuid::Uuid;

verus! {

/// Why a GraphQL request could not be tied to a member.
#[derive(PartialEq, Eq, Structural, Clone, Copy, Debug)]
pub enum ContextFailure {
    /// The request carried no authorization token.
    MissingAuthorizationToken,
    /// The schema holds no core to answer with.
    CoreUnavailable,
    /// The token's claims could not be read.
    InvalidAuthorizationToken,
}

/// The member on whose behalf a GraphQL request runs: a token must be present,
/// the core must be available, and the token's claims must name the member.
pub open spec fn context_rule(token_found: bool, core_found: bool, claims_member: Option<Uuid>) -> Result<
    Uuid,
    ContextFailure,
> {
    if !token_found {
        Err(ContextFailure::MissingAuthorizationToken)
    } else if !core_found {
        Err(ContextFailure::CoreUnavailable)
    } else {
        match claims_member {
            Some(member_id) => Ok(member_id),
            None => Err(ContextFailure::InvalidAuthorizationToken),
        }
    }
}

/// Decides which member a GraphQL request runs for, given whether it carried a
/// token, whether the core is available, and the member that the token's claims
/// name, when they could be read.
pub fn extract_context(token_found: bool, core_found: bool, claims_member: Option<Uuid>) -> (member: Result<
    Uuid,
    ContextFailure,
>)
    ensures
        member == context_rule(token_found, core_found, claims_member),
{
    if !token_found {
        return Err(ContextFailure::MissingAuthorizationToken);
    }
    if !core_found {
        return Err(ContextFailure::CoreUnavailable);
    }
    match claims_member {
        Some(member_id) => Ok(member_id),
        None => Err(ContextFailure::InvalidAuthorizationToken),
    }
}

impl ContextFailure {
    /// The application error that reports this failure; a missing core is
    /// reported by the GraphQL layer itself and has none.
    pub fn app_error(&self) -> (error: Option<PlexoAppError>)
        ensures
            match *self {
                ContextFailure::MissingAuthorizationToken => error == Some(
                    PlexoAppError::MissingAuthorizationToken,
                ),
                ContextFailure::CoreUnavailable => error is None,
                ContextFailure::InvalidAuthorizationToken => error == Some(
                    PlexoAppError::InvalidAuthorizationToken,
                ),
            },
    {
        match self {
            ContextFailure::MissingAuthorizationToken => Some(PlexoAppError::MissingAuthorizationToken),
            ContextFailure::CoreUnavailable => None,
            ContextFailure::InvalidAuthorizationToken => Some(PlexoAppError::InvalidAuthorizationToken),
        }
    }
}

/// What a recorded change did to its resource.
#[derive(PartialEq, Eq, Structural, Clone, Copy, Debug)]
pub enum ChangeOperation {
    Insert,
    Update,
    Delete,
}

/// The kind of resource that a change is about.
#[derive(PartialEq, Eq, Structural, Clone, Copy, Debug)]
pub enum ChangeResourceType {
    Tasks,
    Projects,
    Members,
    Messages,
    Teams,
    Assets,
    Labels,
    Changes,
    Chats,
}

/// What the recorded difference holds: the request and the resulting
/// resource, or the resulting resource alone.
#[derive(PartialEq, Eq, Structural, Clone, Copy, Debug)]
pub enum ChangeDiff {
    InputAndResult,
    ResultOnly,
}

/// A change to register in the history of a resource.
#[derive(Clone, Copy, Debug)]
pub struct ChangeRecord {
    pub owner_id: Uuid,
    pub resource_id: Uuid,
    pub operation: ChangeOperation,
    pub resource_type: ChangeResourceType,
    pub diff: ChangeDiff,
}

/// The change that records `operation` on task `task_id` for `owner_id`.
pub open spec fn task_change(owner_id: Uuid, task_id: Uuid, operation: ChangeOperation) -> ChangeRecord {
    ChangeRecord {
        owner_id,
        resource_id: task_id,
        operation,
        resource_type: ChangeResourceType::Tasks,
        diff: if operation == ChangeOperation::Delete {
            ChangeDiff::ResultOnly
        } else {
            ChangeDiff::InputAndResult
        },
    }
}

/// A task creation request as the member who sends it owns it: only the
/// top-level owner changes.
pub open spec fn owned_task(input: CreateTaskInput, member_id: Uuid) -> CreateTaskInput {
    CreateTaskInput { owner_id: member_id, ..input }
}

/// An asset creation request as the member who sends it owns it.
pub open spec fn owned_asset(input: CreateAssetInput, member_id: Uuid) -> CreateAssetInput {
    CreateAssetInput { owner_id: member_id, ..input }
}

/// A team creation request as the member who sends it owns it.
pub open spec fn owned_team(input: CreateTeamInput, member_id: Uuid) -> CreateTeamInput {
    CreateTeamInput { owner_id: member_id, ..input }
}

/// A project creation request as the member who sends it owns it.
pub open spec fn owned_project(input: CreateProjectInput, member_id: Uuid) -> CreateProjectInput {
    CreateProjectInput { owner_id: member_id, ..input }
}

/// The ten numbers, from 0 to 9, that the placeholder event streams yield.
pub open spec fn first_ten() -> Seq<i32> {
    Seq::new(10, |i: int| i as i32)
}

fn first_ten_numbers() -> (numbers: Vec<i32>)
    ensures
        numbers@ == first_ten(),
{
    let mut numbers: Vec<i32> = Vec::new();
    let mut i: i32 = 0;
    while i < 10
        invariant
            0 <= i <= 10,
            numbers@ == Seq::new(i as nat, |k: int| k as i32),
        decreases 10 - i,
    {
        numbers.push(i);
        i = i + 1;
        assert(numbers@ =~= Seq::new(i as nat, |k: int| k as i32));
    }
    numbers
}

/// Task queries.
#[derive(Default, Clone, Copy, Debug)]
pub struct TasksGraphQLQuery;

/// Task mutations.
#[derive(Default, Clone, Copy, Debug)]
pub struct TasksGraphQLMutation;

impl TasksGraphQLMutation {
    /// The creation request sent on: the sender becomes the owner of the task.
    pub fn create_task(&self, input: CreateTaskInput, member_id: Uuid) -> (owned: CreateTaskInput)
        ensures
            owned == owned_task(input, member_id),
    {
        let mut input = input;
        input.owner_id = member_id;
        input
    }

    /// The batch creation request sent on: the sender becomes the owner of
    /// every task in it, and nothing else changes.
    pub fn create_tasks(&self, input: CreateTasksInput, member_id: Uuid) -> (owned: CreateTasksInput)
        ensures
            owned.tasks.len() == input.tasks.len(),
            forall|i: int|
                0 <= i < input.tasks.len() ==> #[trigger] owned.tasks@[i] == owned_task(
                    input.tasks@[i],
                    member_id,
                ),
    {
        let mut tasks = input.tasks;
        let n = tasks.len();
        let mut i: usize = 0;
        while i < n
            invariant
                0 <= i <= n,
                tasks.len() == n,
                n == input.tasks.len(),
                forall|k: int| 0 <= k < i ==> #[trigger] tasks@[k] == owned_task(input.tasks@[k], member_id),
                forall|k: int| i <= k < n ==> #[trigger] tasks@[k] == input.tasks@[k],
            decreases n - i,
        {
            let mut task = CreateTaskInput {
                title: String::new(),
                owner_id: member_id,
                status: None,
                priority: None,
                description: None,
                due_date: None,
                project_id: None,
                lead_id: None,
                parent_id: None,
                labels: None,
                assignees: None,
                subtasks: None,
                assets: None,
            };
            tasks.set_and_swap(i, &mut task);
            task.owner_id = member_id;
            tasks.set(i, task);
            i = i + 1;
        }
        CreateTasksInput { tasks }
    }

    /// The change that records the creation of a task by a member.
    pub fn created_task_change(&self, member_id: Uuid, task_id: Uuid) -> (change: ChangeRecord)
        ensures
            change == task_change(member_id, task_id, ChangeOperation::Insert),
    {
        ChangeRecord {
            owner_id: member_id,
            resource_id: task_id,
            operation: ChangeOperation::Insert,
            resource_type: ChangeResourceType::Tasks,
            diff: ChangeDiff::InputAndResult,
        }
    }

    /// The changes that record a batch creation: one per created task, in order.
    pub fn created_tasks_changes(&self, member_id: Uuid, task_ids: &Vec<Uuid>) -> (changes: Vec<
        ChangeRecord,
    >)
        ensures
            changes.len() == task_ids.len(),
            forall|i: int|
                0 <= i < task_ids.len() ==> #[trigger] changes@[i] == task_change(
                    member_id,
                    task_ids@[i],
                    ChangeOperation::Insert,
                ),
    {
        let mut changes: Vec<ChangeRecord> = Vec::new();
        let n = task_ids.len();
        let mut i: usize = 0;
        while i < n
            invariant
                0 <= i <= n,
                n == task_ids.len(),
                changes.len() == i,
                forall|k: int|
                    0 <= k < i ==> #[trigger] changes@[k] == task_change(
                        member_id,
                        task_ids@[k],
                        ChangeOperation::Insert,
                    ),
            decreases n - i,
        {
            let change = self.created_task_change(member_id, task_ids[i]);
            changes.push(change);
            i = i + 1;
        }
        changes
    }

    /// The change that records an update of a task by a member.
    pub fn updated_task_change(&self, member_id: Uuid, task_id: Uuid) -> (change: ChangeRecord)
        ensures
            change == task_change(member_id, task_id, ChangeOperation::Update),
    {
        ChangeRecord {
            owner_id: member_id,
            resource_id: task_id,
            operation: ChangeOperation::Update,
            resource_type: ChangeResourceType::Tasks,
            diff: ChangeDiff::InputAndResult,
        }
    }

    /// The change that records the deletion of a task. It belongs to the owner
    /// of the deleted task, whoever asked for the deletion.
    pub fn deleted_task_change(&self, task_owner_id: Uuid, task_id: Uuid) -> (change: ChangeRecord)
        ensures
            change == task_change(task_owner_id, task_id, ChangeOperation::Delete),
    {
        ChangeRecord {
            owner_id: task_owner_id,
            resource_id: task_id,
            operation: ChangeOperation::Delete,
            resource_type: ChangeResourceType::Tasks,
            diff: ChangeDiff::ResultOnly,
        }
    }
}

/// The changes, or the message, that a task mutation's outcome holds.
pub open spec fn outcome_of<T>(outcome: Result<T, String>) -> Result<T, Seq<char>> {
    match outcome {
        Ok(changes) => Ok(changes),
        Err(message) => Err(message@),
    }
}

impl TasksGraphQLMutation {
    /// After the engine tried to create a task: the change to record for the
    /// created task, or the error message for the client.
    pub fn task_created(&self, member_id: Uuid, created: Result<Uuid, SDKError>) -> (outcome: Result<
        ChangeRecord,
        String,
    >)
        ensures
            match created {
                Ok(task_id) => outcome_of(outcome) == Ok::<ChangeRecord, Seq<char>>(
                    task_change(member_id, task_id, ChangeOperation::Insert),
                ),
                Err(e) => outcome_of(outcome) == Err::<ChangeRecord, Seq<char>>(sdk_error_message(e)),
            },
    {
        match created {
            Ok(task_id) => Ok(self.created_task_change(member_id, task_id)),
            Err(e) => Err(e.message()),
        }
    }

    /// After the engine tried to create a batch of tasks: one change per
    /// created task, in order, or the error message for the client.
    pub fn tasks_created(&self, member_id: Uuid, created: Result<Vec<Uuid>, SDKError>) -> (outcome: Result<
        Vec<ChangeRecord>,
        String,
    >)
        ensures
            match created {
                Ok(task_ids) => outcome matches Ok(changes) && changes.len() == task_ids.len() && (forall|i: int|
                    0 <= i < task_ids.len() ==> #[trigger] changes@[i] == task_change(
                        member_id,
                        task_ids@[i],
                        ChangeOperation::Insert,
                    )),
                Err(e) => outcome matches Err(message) && message@ == sdk_error_message(e),
            },
    {
        match created {
            Ok(task_ids) => Ok(self.created_tasks_changes(member_id, &task_ids)),
            Err(e) => Err(e.message()),
        }
    }

    /// After the engine tried to update a task: the change to record for the
    /// updated task, or the error message for the client.
    pub fn task_updated(&self, member_id: Uuid, updated: Result<Uuid, SDKError>) -> (outcome: Result<
        ChangeRecord,
        String,
    >)
        ensures
            match updated {
                Ok(task_id) => outcome_of(outcome) == Ok::<ChangeRecord, Seq<char>>(
                    task_change(member_id, task_id, ChangeOperation::Update),
                ),
                Err(e) => outcome_of(outcome) == Err::<ChangeRecord, Seq<char>>(sdk_error_message(e)),
            },
    {
        match updated {
            Ok(task_id) => Ok(self.updated_task_change(member_id, task_id)),
            Err(e) => Err(e.message()),
        }
    }

    /// After the engine tried to delete a task, given the deleted task's owner
    /// and id: the change to record, or the error message for the client.
    pub fn task_deleted(&self, deleted: Result<(Uuid, Uuid), SDKError>) -> (outcome: Result<ChangeRecord, String>)
        ensures
            match deleted {
                Ok((owner_id, task_id)) => outcome_of(outcome) == Ok::<ChangeRecord, Seq<char>>(
                    task_change(owner_id, task_id, ChangeOperation::Delete),
                ),
                Err(e) => outcome_of(outcome) == Err::<ChangeRecord, Seq<char>>(sdk_error_message(e)),
            },
    {
        match deleted {
            Ok((owner_id, task_id)) => Ok(self.deleted_task_change(owner_id, task_id)),
            Err(e) => Err(e.message()),
        }
    }
}

/// Task subscriptions.
#[derive(Default, Clone, Copy, Debug)]
pub struct TasksGraphQLSubscription;

impl TasksGraphQLSubscription {
    /// The numbers that the task event stream yields.
    pub fn events1(&self) -> (events: Vec<i32>)
        ensures
            events@ == first_ten(),
    {
        first_ten_numbers()
    }
}

/// Asset queries.
#[derive(Default, Clone, Copy, Debug)]
pub struct AssetsGraphQLQuery;

/// Asset mutations.
#[derive(Default, Clone, Copy, Debug)]
pub struct AssetsGraphQLMutation;

impl AssetsGraphQLMutation {
    /// The creation request sent on: the sender becomes the owner of the asset.
    pub fn create_asset(&self, input: CreateAssetInput, member_id: Uuid) -> (owned: CreateAssetInput)
        ensures
            owned == owned_asset(input, member_id),
    {
        let mut input = input;
        input.owner_id = member_id;
        input
    }
}

/// Asset subscriptions.
#[derive(Default, Clone, Copy, Debug)]
pub struct AssetsGraphQLSubscription;

impl AssetsGraphQLSubscription {
    /// The kind of resource whose changes the asset stream follows.
    pub fn assets(&self) -> (resource: ChangeResourceType)
        ensures
            resource == ChangeResourceType::Assets,
    {
        ChangeResourceType::Assets
    }
}

/// Team queries.
#[derive(Default, Clone, Copy, Debug)]
pub struct TeamsGraphQLQuery;

/// Team mutations.
#[derive(Default, Clone, Copy, Debug)]
pub struct TeamsGraphQLMutation;

impl TeamsGraphQLMutation {
    /// The creation request sent on: the sender becomes the owner of the team.
    pub fn create_team(&self, input: CreateTeamInput, member_id: Uuid) -> (owned: CreateTeamInput)
        ensures
            owned == owned_team(input, member_id),
    {
        let mut input = input;
        input.owner_id = member_id;
        input
    }
}

/// Team subscriptions.
#[derive(Default, Clone, Copy, Debug)]
pub struct TeamsGraphQLSubscription;

impl TeamsGraphQLSubscription {
    /// The kind of resource whose changes the team stream follows.
    pub fn teams(&self) -> (resource: ChangeResourceType)
        ensures
            resource == ChangeResourceType::Teams,
    {
        ChangeResourceType::Teams
    }
}

/// Project queries.
#[derive(Default, Clone, Copy, Debug)]
pub struct ProjectsGraphQLQuery;

/// Project mutations.
#[derive(Default, Clone, Copy, Debug)]
pub struct ProjectsGraphQLMutation;

impl ProjectsGraphQLMutation {
    /// The creation request sent on: the sender becomes the owner of the project.
    pub fn create_project(&self, input: CreateProjectInput, member_id: Uuid) -> (owned: CreateProjectInput)
        ensures
            owned == owned_project(input, member_id),
    {
        let mut input = input;
        input.owner_id = member_id;
        input
    }
}

/// Project subscriptions.
#[derive(Default, Clone, Copy, Debug)]
pub struct ProjectsGraphQLSubscription;

impl ProjectsGraphQLSubscription {
    /// The numbers that the project event stream yields.
    pub fn events_project(&self) -> (events: Vec<i32>)
        ensures
            events@ == first_ten(),
    {
        first_ten_numbers()
    }
}

/// Label queries.
#[derive(Default, Clone, Copy, Debug)]
pub struct LabelsGraphQLQuery;

/// Label mutations.
#[derive(Default, Clone, Copy, Debug)]
pub struct LabelsGraphQLMutation;

/// Label subscriptions.
#[derive(Default, Clone, Copy, Debug)]
pub struct LabelsGraphQLSubscription;

impl LabelsGraphQLSubscription {
    /// The numbers that the label event stream yields.
    pub fn events_label(&self) -> (events: Vec<i32>)
        ensures
            events@ == first_ten(),
    {
        first_ten_numbers()
    }
}

/// Member queries.
#[derive(Default, Clone, Copy, Debug)]
pub struct MembersGraphQLQuery;

/// Member mutations.
#[derive(Default, Clone, Copy, Debug)]
pub struct MembersGraphQLMutation;

/// Member subscriptions.
#[derive(Default, Clone, Copy, Debug)]
pub struct MembersGraphQLSubscription;

impl MembersGraphQLSubscription {
    /// The numbers that the member event stream yields.
    pub fn events_member(&self) -> (events: Vec<i32>)
        ensures
            events@ == first_ten(),
    {
        first_ten_numbers()
    }
}

/// Queries of the AI processor.
#[derive(Default, Clone, Copy, Debug)]
pub struct AIProcessorGraphQLQuery;

/// Mutations of the AI processor; it offers none yet.
#[derive(Default, Clone, Copy, Debug)]
pub struct AIProcessorGraphQLMutation;

/// Queries that ask the cognition engine for task suggestions.
#[derive(Default, Clone, Copy, Debug)]
pub struct CognitionGraphQLQuery;

/// The root of all GraphQL queries.
#[derive(Default, Clone, Copy, Debug)]
pub struct QueryRoot(
    pub TasksGraphQLQuery,
    pub AssetsGraphQLQuery,
    pub LabelsGraphQLQuery,
    pub ProjectsGraphQLQuery,
    pub TeamsGraphQLQuery,
    pub MembersGraphQLQuery,
    pub AIProcessorGraphQLQuery,
);

/// The root of all GraphQL mutations.
#[derive(Default, Clone, Copy, Debug)]
pub struct MutationRoot(
    pub TasksGraphQLMutation,
    pub AssetsGraphQLMutation,
    pub LabelsGraphQLMutation,
    pub ProjectsGraphQLMutation,
    pub TeamsGraphQLMutation,
    pub MembersGraphQLMutation,
);

/// The root of all GraphQL subscriptions.
#[derive(Default, Clone, Copy, Debug)]
pub struct SubscriptionRoot(pub TasksGraphQLSubscription);

} // verus!
