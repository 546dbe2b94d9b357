//! Row types exchanged with the storage collaborator.
//!
//! Conversation history and extracted facts live in a conventional
//! SQL-backed store outside this library. These are the plain shapes
//! its rows take when they cross the boundary.

use vstd::prelude::*;

verus! {

/// One conversation session.
#[derive(Clone, Debug, PartialEq, Eq)]
pub struct Session {
    pub id: String,
    pub created_at: i64,
    pub title: Option<String>,
    pub summary: Option<String>,
}

/// One stored message of a session.
#[derive(Clone, Debug, PartialEq, Eq)]
pub struct MessageRow {
    pub id: String,
    pub session_id: String,
    pub role: String,
    pub content: String,
    pub timestamp: i64,
    pub cost_json: Option<String>,
    pub tool_calls_json: Option<String>,
}

/// A session together with how many messages it holds, for history
/// listings.
#[derive(Clone, Debug, PartialEq, Eq)]
pub struct SessionWithCount {
    pub id: String,
    pub created_at: i64,
    pub title: Option<String>,
    pub summary: Option<String>,
    pub message_count: i64,
}

/// A semantic fact extracted from conversations.
#[derive(Clone, Debug, PartialEq, Eq)]
pub struct Fact {
    pub id: String,
    pub key: String,
    pub value: String,
    pub source_session: Option<String>,
    pub created_at: i64,
    pub updated_at: i64,
}

} // verus!
