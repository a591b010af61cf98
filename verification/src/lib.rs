//! Decision logic of the Plexo core server: error statuses, session cookies,
//! authentication flows, GraphQL resolver rules and the start-up prelude.
pub mod auth;
pub mod decimal;
pub mod errors;
pub mod flows;
pub mod github;
pub mod graphql;
pub mod headers;
pub mod ids;
pub mod inputs;
pub mod laws;
pub mod logging;
pub mod members;
pub mod reply;
pub mod session;
pub mod startup;
pub mod time;
