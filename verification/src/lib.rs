pub mod errors;
pub mod file;
pub mod lifecycle;
pub mod pipeline;
pub mod user;
pub mod users;
pub mod appstate;
pub mod login;
pub mod signup;
pub mod password_change;
pub mod username_change;
pub mod authenticate;
pub mod refresh;
pub mod claims;
mod sys;
pub mod validation;
