//! A persistent, append-only list (log) whose handles share common tails.
//!
//! Appending never changes an existing handle: it makes a new node that
//! links to the tail of the base handle, strongly or weakly. A weakly linked
//! tail lives only as long as some other handle holds it strongly, which lets
//! old history be reclaimed. Iteration walks from the newest element to the
//! oldest and ends early, without error, at a weak link whose target is gone.
mod weak;
pub mod list;
pub mod laws;

pub use list::{Node, RcList, RcListIter, Ref};
