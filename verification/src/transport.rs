//! Transport factory decision: which transport serves a descriptor.
//!
//! The choice is made once, at validation time: a descriptor with a base
//! URL denotes a remote event-stream session; any other descriptor runs
//! through the command policy and denotes a local spawn.  Opening the
//! connection itself — the event-stream connect, or the spawn with the
//! handshake over the child's standard streams — is outside work the host
//! performs with the plan returned here.

use vstd::prelude::*;
use crate::descriptor::MCPServer;
use crate::errors::McpError;
use crate::policy::LaunchPlan;
use crate::policy::local_plan_matches;
use crate::policy::local_verdict;
use crate::policy::plan_local;

verus! {

/// The transport a validated descriptor is served by, chosen once and
/// never re-inspected downstream.
pub enum TransportPlan {
    /// A remote server-push event-stream session at `url`.
    Remote { url: String },
    /// A local process spawned and spoken to over its standard streams.
    Local { launch: LaunchPlan },
}

/// Selects the transport for a descriptor.
///
/// A base URL wins outright and is passed through verbatim; otherwise the
/// command policy validates the descriptor, whose defects surface as
/// `BadParameter`, and an accepted descriptor yields the rewritten launch
/// plan.
pub fn plan_transport(server: &MCPServer) -> (r: Result<TransportPlan, McpError>)
    ensures
        server.baseUrl matches Some(b) ==> (r matches Ok(TransportPlan::Remote { url }) && url@
            == b@),
        !server.is_remote() ==> (local_verdict(server) matches Err(e) ==> r == Err::<
            TransportPlan,
            McpError,
        >(McpError::BadParameter(e))),
        !server.is_remote() && local_verdict(server) is Ok ==> (r matches Ok(
            TransportPlan::Local { launch },
        ) && local_plan_matches(server, launch)),
{
    match &server.baseUrl {
        Some(u) => Ok(TransportPlan::Remote { url: u.clone() }),
        None => match plan_local(server) {
            Ok(launch) => Ok(TransportPlan::Local { launch }),
            Err(e) => Err(McpError::BadParameter(e)),
        },
    }
}

} // verus!
