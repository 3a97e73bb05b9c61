//! Security-posture rules for the objects of a Kubernetes namespace.
//!
//! [`records`] holds the objects as the rules read them, [`checks`] the four
//! rules, [`monitor`] a scan cycle over whole collections and the schedule of
//! the service, [`lemmas`] what the rules guarantee, and [`text`] the string
//! helpers they share.

pub mod checks;
pub mod lemmas;
pub mod monitor;
pub mod records;
pub mod seq_lemmas;
pub mod text;
