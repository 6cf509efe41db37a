//! What only a logged-in administrator may do.

pub mod dashboard;
pub mod logout;
pub mod password;
