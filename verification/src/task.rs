//! The record that travels as the payload of a request or a reply.

use vstd::prelude::*;

verus! {

/// A task as the host application keeps it. The client carries it as text
/// and looks at none of its fields.
#[derive(Debug, Clone, PartialEq, Eq)]
pub struct TaskItem {
    pub id: i64,
    pub created_on: String,
    pub title: String,
    pub tags: Vec<String>,
    pub description: String,
    pub is_done: bool,
}

} // verus!
