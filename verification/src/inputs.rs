use vstd::prelude::*;

use crate::time::Instant;
use uuid::Uuid;

verus! {

/// The workflow state of a task.
#[derive(PartialEq, Eq, Structural, Clone, Copy, Debug)]
pub enum TaskStatus {
    NoStatus,
    Draft,
    Backlog,
    ToDo,
    InProgress,
    Done,
    Canceled,
}

/// The priority of a task.
#[derive(PartialEq, Eq, Structural, Clone, Copy, Debug)]
pub enum TaskPriority {
    NoPriority,
    Low,
    Medium,
    High,
    Urgent,
}

/// A request to create a task, with its subtasks.
pub struct CreateTaskInput {
    pub title: String,
    pub owner_id: Uuid,
    pub status: Option<TaskStatus>,
    pub priority: Option<TaskPriority>,
    pub description: Option<String>,
    pub due_date: Option<Instant>,
    pub project_id: Option<Uuid>,
    pub lead_id: Option<Uuid>,
    pub parent_id: Option<Uuid>,
    pub labels: Option<Vec<Uuid>>,
    pub assignees: Option<Vec<Uuid>>,
    pub subtasks: Option<Vec<CreateTaskInput>>,
    pub assets: Option<Vec<Uuid>>,
}

/// A request to create several tasks at once.
pub struct CreateTasksInput {
    pub tasks: Vec<CreateTaskInput>,
}

/// The kind of an asset.
#[derive(PartialEq, Eq, Structural, Clone, Copy, Debug)]
pub enum AssetKind {
    Unknown,
    Image,
    Pdf,
    Audio,
    Video,
    Text,
    Website,
}

/// A request to create an asset.
pub struct CreateAssetInput {
    pub name: String,
    pub owner_id: Uuid,
    pub kind: Option<AssetKind>,
    pub project_id: Option<Uuid>,
}

/// Who can see a team.
#[derive(PartialEq, Eq, Structural, Clone, Copy, Debug)]
pub enum TeamVisibility {
    NoVisibility,
    Public,
    Private,
    Internal,
}

/// A request to create a team.
pub struct CreateTeamInput {
    pub name: String,
    pub owner_id: Uuid,
    pub visibility: TeamVisibility,
    pub prefix: Option<String>,
    pub members: Option<Vec<Uuid>>,
    pub projects: Option<Vec<Uuid>>,
}

/// The workflow state of a project.
#[derive(PartialEq, Eq, Structural, Clone, Copy, Debug)]
pub enum ProjectStatus {
    NoStatus,
    Backlog,
    ToDo,
    InProgress,
    Done,
    Canceled,
}

/// Who can see a project.
#[derive(PartialEq, Eq, Structural, Clone, Copy, Debug)]
pub enum ProjectVisibility {
    NoVisibility,
    Private,
    Internal,
    Public,
}

/// A request to create a project.
pub struct CreateProjectInput {
    pub name: String,
    pub owner_id: Uuid,
    pub status: Option<ProjectStatus>,
    pub visibility: Option<ProjectVisibility>,
    pub prefix: Option<String>,
    pub description: Option<String>,
    pub lead_id: Option<Uuid>,
    pub start_date: Option<Instant>,
    pub due_date: Option<Instant>,
    pub members: Option<Vec<Uuid>>,
    pub teams: Option<Vec<Uuid>>,
}

} // verus!
