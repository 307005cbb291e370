//! Decision logic of the public operations.
//!
//! Per server id the manager is in one of two states: absent (no
//! session) or active (a session is current).  `start` always builds —
//! `plan_transport` validates and plans, and after the host has opened
//! the connection, `SessionTable::put` makes it current, handing any
//! superseded token back for asynchronous retirement.  `stop` is
//! `SessionTable::remove`, a no-op on an absent id, with the removed
//! token retired synchronously by the caller.  The listing and invocation
//! operations share the reuse-or-establish decision below; failures never
//! change the registry, because nothing is inserted until the host has a
//! live session in hand.

use vstd::prelude::*;
use crate::descriptor::MCPServer;
use crate::errors::McpError;
use crate::policy::local_plan_matches;
use crate::policy::local_verdict;
use crate::registry::SessionId;
use crate::registry::SessionTable;
use crate::transport::TransportPlan;
use crate::transport::plan_transport;

verus! {

/// What a listing or invocation operation must do next for a server id.
pub enum SessionStep {
    /// A session is current for the id: perform the call over it, while
    /// the registry stays as it is.
    Reuse { session: SessionId },
    /// No session is current: the host must open one from this plan and
    /// only then make it current.
    Establish { plan: TransportPlan },
}

/// The reuse-or-establish decision shared by the listing and invocation
/// operations.
///
/// An id with a current session is reused — the descriptor is not even
/// validated on this fast path.  An absent id goes through transport
/// planning: descriptor defects surface as `BadParameter`, and an
/// accepted descriptor yields the plan the host must establish.  The
/// registry itself is only read.
pub fn acquire_step(table: &SessionTable, server: &MCPServer) -> (r: Result<SessionStep, McpError>)
    ensures
        table@.contains_key(server.id@) ==> (r matches Ok(SessionStep::Reuse { session })
            && session == table@[server.id@]),
        !table@.contains_key(server.id@) ==> (server.baseUrl matches Some(b) ==> (r matches Ok(
            SessionStep::Establish { plan: TransportPlan::Remote { url } },
        ) && url@ == b@)),
        !table@.contains_key(server.id@) && !server.is_remote() ==> (local_verdict(server) matches
        Err(e) ==> r == Err::<SessionStep, McpError>(McpError::BadParameter(e))),
        !table@.contains_key(server.id@) && !server.is_remote() && local_verdict(server) is Ok
            ==> (r matches Ok(SessionStep::Establish { plan: TransportPlan::Local { launch } })
            && local_plan_matches(server, launch)),
{
    match table.get(&server.id) {
        Some(session) => Ok(SessionStep::Reuse { session }),
        None => match plan_transport(server) {
            Ok(plan) => Ok(SessionStep::Establish { plan }),
            Err(e) => Err(e),
        },
    }
}

} // verus!
