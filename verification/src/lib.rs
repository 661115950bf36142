//! The decision logic of the Goals backend: posts and their weekly tables,
//! voting on posts, password hashing, picture checks, token claims, and the
//! step machines that decide how each HTTP endpoint answers.

pub mod structures;
pub mod voting;
pub mod reply;
pub mod vote_flow;
pub mod password;
pub mod picture;
pub mod paths;
pub mod token;
pub mod login_flow;
pub mod sign_up_flow;
pub mod upload_flow;
pub mod fetch_flow;
