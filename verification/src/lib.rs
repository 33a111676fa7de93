//! Decision logic of a student portal backend: sign-up, e-mail
//! verification, login with a session token, password reset and the
//! course page, each written as a state machine whose outside work
//! (database, mail) is carried out by the caller.

pub mod code;
pub mod email_verification;
pub mod expiry;
pub mod external;
pub mod home;
pub mod laws;
pub mod login;
pub mod models;
pub mod password_reset;
pub mod reply;
pub mod runs;
pub mod signup;
pub mod text;
