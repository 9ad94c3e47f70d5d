//! What holds of the results of calls, and how calls relate to one another.
//!
//! Each law takes what a call was given and what it returned, whatever that
//! was, and says what must hold between them.

pub mod building;
pub mod collecting;
pub mod exporting;
pub mod inferring;
pub mod naming;
