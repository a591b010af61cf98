use vstd::prelude::*;

verus! {

/// Errors that the Plexo SDK reports. Variants whose source is another
/// library's error carry that error's description.
#[derive(Clone, Debug)]
pub enum SDKError {
    VersionNotFound,
    ResourceNotFound,
    InvalidResourceType,
    SQLXError(String),
    MigrateError(String),
    SerdeJSONError(String),
    OpenAIError(String),
}

/// The text that an SDK error displays, which GraphQL clients receive as the
/// error message of a failed query or mutation.
pub open spec fn sdk_error_message(e: SDKError) -> Seq<char> {
    match e {
        SDKError::VersionNotFound => "Version not found"@,
        SDKError::ResourceNotFound => "Resource not found"@,
        SDKError::InvalidResourceType => "Invalid Resource Type"@,
        SDKError::SQLXError(_) => "SQLX Error"@,
        SDKError::MigrateError(_) => "Database Migration Error"@,
        SDKError::SerdeJSONError(_) => "Serde JSON Error"@,
        SDKError::OpenAIError(_) => "OpenAI Error"@,
    }
}

impl SDKError {
    /// The error's display text.
    pub fn message(&self) -> (text: String)
        ensures
            text@ == sdk_error_message(*self),
    {
        match self {
            SDKError::VersionNotFound => String::from_str("Version not found"),
            SDKError::ResourceNotFound => String::from_str("Resource not found"),
            SDKError::InvalidResourceType => String::from_str("Invalid Resource Type"),
            SDKError::SQLXError(_) => String::from_str("SQLX Error"),
            SDKError::MigrateError(_) => String::from_str("Database Migration Error"),
            SDKError::SerdeJSONError(_) => String::from_str("Serde JSON Error"),
            SDKError::OpenAIError(_) => String::from_str("OpenAI Error"),
        }
    }
}

/// An SDK error answered as an HTTP error of its own.
#[derive(Clone, Debug)]
pub struct SDKErrorExtended(pub SDKError);

impl SDKErrorExtended {
    /// Every SDK error is a failure of the server: 500.
    pub fn status(&self) -> (code: u16)
        ensures
            code == 500,
    {
        500
    }
}

/// Errors of the application, each answered with its own HTTP status.
#[derive(Clone, Debug)]
pub enum PlexoAppError {
    MissingAuthorizationToken,
    InvalidAuthorizationToken,
    EmailAlreadyInUse,
    InvalidPassword,
    EmailNotFound,
    EmailAlreadyExists,
    SDKErrorExtended(SDKErrorExtended),
    SDKError(SDKError),
    NotFoundPoemError,
    /// A token could not be encoded or decoded; carries the description.
    JSONWebTokenError(String),
}

/// The HTTP status with which each application error is answered.
pub open spec fn app_error_status(e: PlexoAppError) -> u16 {
    match e {
        PlexoAppError::MissingAuthorizationToken => 401,
        PlexoAppError::InvalidAuthorizationToken => 401,
        PlexoAppError::EmailAlreadyInUse => 400,
        PlexoAppError::InvalidPassword => 400,
        PlexoAppError::EmailNotFound => 400,
        PlexoAppError::EmailAlreadyExists => 400,
        PlexoAppError::SDKError(_) => 500,
        PlexoAppError::NotFoundPoemError => 404,
        PlexoAppError::JSONWebTokenError(_) => 500,
        PlexoAppError::SDKErrorExtended(_) => 500,
    }
}

/// The text that each application error displays.
pub open spec fn app_error_message(e: PlexoAppError) -> Seq<char> {
    match e {
        PlexoAppError::MissingAuthorizationToken => "Authorization token not provided"@,
        PlexoAppError::InvalidAuthorizationToken => "Invalid authorization token"@,
        PlexoAppError::EmailAlreadyInUse => "Email already in use"@,
        PlexoAppError::InvalidPassword => "Password isn't valid"@,
        PlexoAppError::EmailNotFound => "Email not found"@,
        PlexoAppError::EmailAlreadyExists => "Email already exists"@,
        PlexoAppError::SDKErrorExtended(_) => "SDKErrorExtended Error"@,
        PlexoAppError::SDKError(_) => "SDKError error"@,
        PlexoAppError::NotFoundPoemError => "Poem error"@,
        PlexoAppError::JSONWebTokenError(_) => "JSONWebToken error"@,
    }
}

impl PlexoAppError {
    /// The HTTP status of the response that reports this error.
    pub fn status(&self) -> (code: u16)
        ensures
            code == app_error_status(*self),
    {
        match self {
            PlexoAppError::MissingAuthorizationToken => 401,
            PlexoAppError::InvalidAuthorizationToken => 401,
            PlexoAppError::EmailAlreadyInUse => 400,
            PlexoAppError::InvalidPassword => 400,
            PlexoAppError::EmailNotFound => 400,
            PlexoAppError::EmailAlreadyExists => 400,
            PlexoAppError::SDKError(_) => 500,
            PlexoAppError::NotFoundPoemError => 404,
            PlexoAppError::JSONWebTokenError(_) => 500,
            PlexoAppError::SDKErrorExtended(_) => 500,
        }
    }

    /// The error's display text.
    pub fn message(&self) -> (text: String)
        ensures
            text@ == app_error_message(*self),
    {
        match self {
            PlexoAppError::MissingAuthorizationToken => String::from_str("Authorization token not provided"),
            PlexoAppError::InvalidAuthorizationToken => String::from_str("Invalid authorization token"),
            PlexoAppError::EmailAlreadyInUse => String::from_str("Email already in use"),
            PlexoAppError::InvalidPassword => String::from_str("Password isn't valid"),
            PlexoAppError::EmailNotFound => String::from_str("Email not found"),
            PlexoAppError::EmailAlreadyExists => String::from_str("Email already exists"),
            PlexoAppError::SDKErrorExtended(_) => String::from_str("SDKErrorExtended Error"),
            PlexoAppError::SDKError(_) => String::from_str("SDKError error"),
            PlexoAppError::NotFoundPoemError => String::from_str("Poem error"),
            PlexoAppError::JSONWebTokenError(_) => String::from_str("JSONWebToken error"),
        }
    }
}

/// Every application error is answered with an HTTP error status: a client
/// error (4xx) for missing or invalid credentials and rejected input, a server
/// error (5xx) for failures below the application.
pub proof fn lemma_app_error_status_is_error_class(e: PlexoAppError)
    ensures
        400 <= app_error_status(e) < 600,
        app_error_status(e) < 500 <==> !(e is SDKError || e is SDKErrorExtended || e is JSONWebTokenError),
{
}

} // verus!
