use plexo_core::errors::SDKError;
use plexo_core::graphql::{ChangeOperation, TasksGraphQLMutation};
use plexo_core::headers::{token_from_authorization, token_from_cookie_header, token_from_cookie_headers};
use plexo_core::logging::{level_or_info, tracing_level, LogLevel};
use uuid::Uuid;

#[test]
fn tracing_level_from_setting() {
    assert_eq!(tracing_level("debug"), LogLevel::Debug);
    assert_eq!(tracing_level("TRACE"), LogLevel::Trace);
    assert_eq!(tracing_level("Warn"), LogLevel::Warn);
    assert_eq!(tracing_level("error"), LogLevel::Error);
    assert_eq!(tracing_level("info"), LogLevel::Info);
    assert_eq!(tracing_level("4"), LogLevel::Debug);
    assert_eq!(tracing_level("verbose"), LogLevel::Info);
    assert_eq!(tracing_level(""), LogLevel::Info);
    assert_eq!(level_or_info(None), LogLevel::Info);
    assert_eq!(level_or_info(Some(LogLevel::Trace)), LogLevel::Trace);
}

#[test]
fn bearer_token_from_authorization() {
    assert_eq!(token_from_authorization("Bearer abc.def"), Some("abc.def".to_string()));
    assert_eq!(token_from_authorization("Bearer "), Some(String::new()));
    assert_eq!(token_from_authorization("Basic abc"), None);
    assert_eq!(token_from_authorization("Bear"), None);
}

#[test]
fn session_token_from_cookies() {
    assert_eq!(
        token_from_cookie_header("theme=dark; __Host-plexo-session-token=tok123; lang=en"),
        Some("tok123".to_string())
    );
    assert_eq!(token_from_cookie_header("__Host-plexo-session-token=first"), Some("first".to_string()));
    assert_eq!(token_from_cookie_header("theme=dark"), None);
    assert_eq!(token_from_cookie_header("x__Host-plexo-session-token=t"), None);
    assert_eq!(token_from_cookie_header(""), None);
    let headers = vec!["a=1".to_string(), "b=2; __Host-plexo-session-token=t2".to_string()];
    assert_eq!(token_from_cookie_headers(&headers), Some("t2".to_string()));
    assert_eq!(token_from_cookie_headers(&vec![]), None);
}

#[test]
fn task_mutation_outcomes() {
    let me = Uuid::from_u128(1);
    let t = Uuid::from_u128(2);
    let rules = TasksGraphQLMutation;
    let c = rules.task_created(me, Ok(t)).ok().unwrap();
    assert_eq!((c.owner_id, c.resource_id, c.operation), (me, t, ChangeOperation::Insert));
    assert_eq!(rules.task_created(me, Err(SDKError::ResourceNotFound)).err().unwrap(), "Resource not found");
    let cs = rules.tasks_created(me, Ok(vec![t, Uuid::from_u128(3)])).ok().unwrap();
    assert_eq!(cs.len(), 2);
    assert_eq!(cs[1].resource_id, Uuid::from_u128(3));
    assert_eq!(rules.tasks_created(me, Err(SDKError::SQLXError("x".into()))).err().unwrap(), "SQLX Error");
    let c = rules.task_updated(me, Ok(t)).ok().unwrap();
    assert_eq!(c.operation, ChangeOperation::Update);
    let owner = Uuid::from_u128(9);
    let c = rules.task_deleted(Ok((owner, t))).ok().unwrap();
    assert_eq!((c.owner_id, c.operation), (owner, ChangeOperation::Delete));
    assert_eq!(rules.task_deleted(Err(SDKError::VersionNotFound)).err().unwrap(), "Version not found");
}
