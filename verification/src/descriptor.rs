//! Caller-supplied description of one tool-provider server.

use vstd::prelude::*;
use crate::views::row_views;
use crate::views::str_views;

verus! {

/// How a tool-provider server is reached and under which identity it is
/// cached.
///
/// `id` is the caller-assigned registry key and `name` the display name.
/// If `baseUrl` is present the descriptor denotes a remote event-stream
/// session; otherwise `command` must name an accepted alias and the
/// descriptor denotes a local-spawn session.  `args` may carry at most
/// five entries; `registryUrl`, when present, selects a package index for
/// the spawned helper; `env` lists extra environment entries, one row per
/// variable.
#[allow(non_snake_case)]
pub struct MCPServer {
    pub id: String,
    pub name: String,
    pub baseUrl: Option<String>,
    pub command: Option<String>,
    pub registryUrl: Option<String>,
    pub args: Option<Vec<String>>,
    pub env: Option<Vec<(String, String)>>,
}

impl MCPServer {
    /// A descriptor with `baseUrl` present denotes a remote session.
    pub open spec fn is_remote(&self) -> bool {
        self.baseUrl is Some
    }

    /// How many arguments the caller passed; a missing `args` counts as none.
    pub open spec fn arg_count(&self) -> nat {
        self.arg_views().len()
    }

    /// The caller's arguments as character sequences.
    pub open spec fn arg_views(&self) -> Seq<Seq<char>> {
        match self.args {
            Some(a) => str_views(a@),
            None => Seq::empty(),
        }
    }

    /// The caller's environment rows as pairs of character sequences.
    pub open spec fn env_views(&self) -> Seq<(Seq<char>, Seq<char>)> {
        match self.env {
            Some(e) => row_views(e@),
            None => Seq::empty(),
        }
    }

    /// True when the descriptor names the given command alias.
    pub open spec fn names_command(&self, alias: Seq<char>) -> bool {
        match self.command {
            Some(c) => c@ == alias,
            None => false,
        }
    }
}

} // verus!
