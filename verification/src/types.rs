use vstd::prelude::*;

verus! {

// --- Workflow types ---

/// A HaloPSA workflow with its steps and stages.
pub struct Workflow {
    pub id: i64,
    pub name: String,
    pub steps: Vec<WorkflowStep>,
    pub stages: Vec<WorkflowStage>,
}

/// One step of a workflow and the transitions that leave it.
pub struct WorkflowStep {
    pub id: i64,
    pub name: String,
    pub stage_number: Option<i64>,
    pub actions: Vec<WorkflowAction>,
}

/// A workflow transition.
pub struct WorkflowAction {
    pub id: i64,
    pub action_name: String,
    pub start_step: Option<i64>,
    pub end_step: Option<i64>,
    pub action_outcome: Option<String>,
    pub action_colour: Option<String>,
    /// 0 = not available to end users, >= 1 = available
    pub enduseraction: i64,
    /// 0 = not available to agents, >= 1 = available
    pub agentaction: Option<i64>,
    pub action_id: Option<i64>,
}

/// A workflow stage.
pub struct WorkflowStage {
    pub id: i64,
    pub name: String,
    pub sequence: i64,
    pub stage_number: Option<i64>,
}

fn copy_opt_string(o: &Option<String>) -> (r: Option<String>)
    ensures
        r == *o,
{
    match o {
        Some(s) => Some(s.clone()),
        None => None,
    }
}

impl WorkflowAction {
    /// An identical copy of this transition.
    pub fn duplicate(&self) -> (r: Self)
        ensures
            r == *self,
    {
        WorkflowAction {
            id: self.id,
            action_name: self.action_name.clone(),
            start_step: self.start_step,
            end_step: self.end_step,
            action_outcome: copy_opt_string(&self.action_outcome),
            action_colour: copy_opt_string(&self.action_colour),
            enduseraction: self.enduseraction,
            agentaction: self.agentaction,
            action_id: self.action_id,
        }
    }
}

// --- Embedding types ---

/// What the semantic index stores about a ticket.
pub struct TicketMeta {
    pub ticket_id: i64,
    pub summary: String,
    pub content_hash: String,
    pub client_name: Option<String>,
    pub agent_name: Option<String>,
    pub status: Option<String>,
    pub team: Option<String>,
}

/// A stored chunk, as search results show it.
pub struct ChunkDetail {
    pub chunk_id: i64,
    pub ticket_id: i64,
    pub content: String,
    pub heading_path: String,
}

/// Size of the semantic index.
pub struct EmbedStats {
    pub total_indexed_tickets: i64,
    pub total_chunks: i64,
}

/// An embedding job in the queue.
pub struct EmbedJob {
    pub id: i64,
    pub scope: String,
    pub status: String,
    pub done_tickets: i64,
    pub total_tickets: i64,
    pub started_at: Option<i64>,
    pub finished_at: Option<i64>,
    pub error: Option<String>,
    pub worker_id: Option<String>,
}

impl Default for EmbedStats {
    /// An empty index.
    fn default() -> (r: Self)
        ensures
            r.total_indexed_tickets == 0 && r.total_chunks == 0,
    {
        EmbedStats { total_indexed_tickets: 0, total_chunks: 0 }
    }
}

} // verus!
