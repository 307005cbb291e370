//! The guarantees the manager gives across its operations, stated over
//! the registry's map model and the command policy's verdict.

use vstd::prelude::*;
use crate::descriptor::MCPServer;
use crate::errors::CommandError;
use crate::policy::ARG_LIMIT;
use crate::policy::local_verdict;
use crate::registry::SessionId;

verus! {

/// A local-spawn descriptor whose command is missing or is not one of
/// the accepted aliases fails validation, so `start` — and any other
/// operation that must build a session for it — surfaces `BadParameter`;
/// the registry is untouched, since nothing is inserted without a built
/// session.
pub proof fn law_unknown_command_rejected(d: &MCPServer)
    requires
        !d.is_remote(),
        !d.names_command("uvx"@),
        !d.names_command("npx"@),
    ensures
        local_verdict(d) is Err,
{
}

/// A local-spawn descriptor with more arguments than the limit is
/// rejected with the argument-limit defect before anything else is
/// examined, so every operation that would build a session for it fails
/// with `BadParameter` before any process is spawned.  (A remote
/// descriptor opens no process at all, and an id whose session is
/// already current is reused without validation.)
pub proof fn law_arg_limit_rejected(d: &MCPServer)
    requires
        d.arg_count() > ARG_LIMIT,
    ensures
        local_verdict(d) == Err::<(), CommandError>(CommandError::ArgumentLimitExceeded),
{
}

/// Stopping an id with no current session succeeds as a no-op: removing
/// an absent key leaves the registry exactly as it was, and there is no
/// token to retire.
pub proof fn law_stop_absent_noop(m: Map<Seq<char>, SessionId>, id: Seq<char>)
    requires
        !m.contains_key(id),
    ensures
        m.remove(id) == m,
{
    assert(m.remove(id) =~= m);
}

/// Starting twice under one id: the second insertion wins — afterwards
/// the id maps to the new token — and what the second `put` hands back
/// for retirement is exactly the first token, so the superseded session
/// is retired without ever blocking the second start.
pub proof fn law_restart_replaces(
    m: Map<Seq<char>, SessionId>,
    id: Seq<char>,
    first: SessionId,
    second: SessionId,
)
    ensures
        m.insert(id, first).contains_key(id) && m.insert(id, first)[id] == first,
        m.insert(id, first).insert(id, second)[id] == second,
        m.insert(id, first).insert(id, second) == m.insert(id, second),
{
    assert(m.insert(id, first).insert(id, second) =~= m.insert(id, second));
}

/// A session established for an absent id becomes the one the registry
/// serves: afterwards the id maps to the new token — so the next
/// reuse-or-establish decision reuses it instead of building a second
/// session — while every other id maps to exactly what it did before.
pub proof fn law_established_session_reused(
    m: Map<Seq<char>, SessionId>,
    id: Seq<char>,
    session: SessionId,
)
    ensures
        m.insert(id, session).contains_key(id) && m.insert(id, session)[id] == session,
        forall|k: Seq<char>|
            k != id ==> m.insert(id, session).contains_key(k) == m.contains_key(k),
        forall|k: Seq<char>| k != id && m.contains_key(k) ==> m.insert(id, session)[k] == m[k],
{
}

} // verus!
