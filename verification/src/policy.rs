//! Command policy: validates a local-spawn descriptor and rewrites it into
//! an executable name, argument vector and environment rows.

use vstd::prelude::*;
use crate::descriptor::MCPServer;
use crate::errors::CommandError;
use crate::views::row_views;
use crate::views::str_views;

verus! {

broadcast use crate::views::group_view_lemmas;

/// The most arguments a caller may pass to a local-spawn descriptor.
pub const ARG_LIMIT: usize = 5;

/// What the transport layer must execute for a local-spawn session:
/// an executable name, its argument vector, and environment rows.
#[derive(Debug, PartialEq, Eq)]
pub struct LaunchPlan {
    pub program: String,
    pub args: Vec<String>,
    pub env: Vec<(String, String)>,
}

/// Whether a local-spawn descriptor passes validation, and with which
/// defect it is rejected.  Checks run in this order: argument limit,
/// command presence, command alias.
pub open spec fn local_verdict(d: &MCPServer) -> Result<(), CommandError> {
    if d.arg_count() > ARG_LIMIT {
        Err(CommandError::ArgumentLimitExceeded)
    } else if d.command is None {
        Err(CommandError::MissingCommand)
    } else if !d.names_command("uvx"@) && !d.names_command("npx"@) {
        Err(CommandError::InvalidCommand)
    } else {
        Ok(())
    }
}

/// Arguments placed before the caller's own for the `uvx` alias.
pub open spec fn uvx_prefix() -> Seq<Seq<char>> {
    seq!["tool"@, "run"@, "-q"@, "--no-progress"@]
}

/// Arguments placed before the caller's own for the `npx` alias.
pub open spec fn npx_prefix() -> Seq<Seq<char>> {
    seq!["x"@, "--silent"@]
}

/// The environment rows with every row named `key` removed.
pub open spec fn env_sans(env: Seq<(Seq<char>, Seq<char>)>, key: Seq<char>) -> Seq<
    (Seq<char>, Seq<char>),
>
    decreases env.len(),
{
    if env.len() == 0 {
        Seq::empty()
    } else {
        let rest = env_sans(env.drop_last(), key);
        if env.last().0 == key {
            rest
        } else {
            rest.push(env.last())
        }
    }
}

/// The environment rows with `key` bound to `value` and any earlier
/// binding of `key` dropped, as a map insertion over rows.
pub open spec fn env_with(
    env: Seq<(Seq<char>, Seq<char>)>,
    key: Seq<char>,
    value: Seq<char>,
) -> Seq<(Seq<char>, Seq<char>)> {
    env_sans(env, key).push((key, value))
}

/// The environment a validated descriptor is launched with: the caller's
/// rows, augmented with the package-index override under `key` when a
/// registry URL is given.
pub open spec fn planned_env(d: &MCPServer, key: Seq<char>) -> Seq<(Seq<char>, Seq<char>)> {
    match d.registryUrl {
        Some(u) => env_with(d.env_views(), key, u@),
        None => d.env_views(),
    }
}

/// What the command policy owes for a descriptor that passed validation:
/// `uvx` runs through `uv` with the tool-runner prefix and the package
/// index override `UV_DEFAULT_INDEX`; `npx` runs through `bun` with the
/// silent-runner prefix and the override `NPM_CONFIG_REGISTRY`.
pub open spec fn local_plan_matches(d: &MCPServer, p: LaunchPlan) -> bool {
    if d.names_command("uvx"@) {
        &&& p.program@ == "uv"@
        &&& str_views(p.args@) == uvx_prefix() + d.arg_views()
        &&& row_views(p.env@) == planned_env(d, "UV_DEFAULT_INDEX"@)
    } else {
        &&& p.program@ == "bun"@
        &&& str_views(p.args@) == npx_prefix() + d.arg_views()
        &&& row_views(p.env@) == planned_env(d, "NPM_CONFIG_REGISTRY"@)
    }
}

/// Extends `dst` with a clone of every string in `src`.
fn extend_cloned(dst: Vec<String>, src: &Vec<String>) -> (r: Vec<String>)
    ensures
        str_views(r@) == str_views(dst@) + str_views(src@),
{
    let ghost orig: Seq<Seq<char>> = str_views(dst@);
    let mut out = dst;
    let mut i: usize = 0;
    while i < src.len()
        invariant
            i <= src.len(),
            str_views(out@) =~= orig + str_views(src@).take(i as int),
        decreases src.len() - i,
    {
        out.push(src[i].clone());
        proof {
            assert(str_views(src@).take(i as int + 1) =~= str_views(src@).take(i as int).push(
                src@[i as int]@,
            ));
            assert(str_views(out@) =~= orig + str_views(src@).take(i as int + 1));
        }
        i += 1;
    }
    proof {
        assert(str_views(src@).take(src.len() as int) =~= str_views(src@));
    }
    out
}

/// Clones the environment rows as they stand.
fn clone_env_rows(env: &Vec<(String, String)>) -> (r: Vec<(String, String)>)
    ensures
        row_views(r@) == row_views(env@),
{
    let mut out: Vec<(String, String)> = Vec::new();
    let mut i: usize = 0;
    while i < env.len()
        invariant
            i <= env.len(),
            row_views(out@) =~= row_views(env@).take(i as int),
        decreases env.len() - i,
    {
        out.push((env[i].0.clone(), env[i].1.clone()));
        proof {
            assert(row_views(env@).take(i as int + 1) =~= row_views(env@).take(i as int).push(
                (env@[i as int].0@, env@[i as int].1@),
            ));
            assert(row_views(out@) =~= row_views(env@).take(i as int + 1));
        }
        i += 1;
    }
    proof {
        assert(row_views(env@).take(env.len() as int) =~= row_views(env@));
    }
    out
}

/// Clones the environment rows, dropping every row named `key`.
fn env_without(env: &Vec<(String, String)>, key: &String) -> (r: Vec<(String, String)>)
    ensures
        row_views(r@) == env_sans(row_views(env@), key@),
{
    let mut out: Vec<(String, String)> = Vec::new();
    let mut i: usize = 0;
    while i < env.len()
        invariant
            i <= env.len(),
            row_views(out@) =~= env_sans(row_views(env@).take(i as int), key@),
        decreases env.len() - i,
    {
        let keep = !(env[i].0 == *key);
        if keep {
            out.push((env[i].0.clone(), env[i].1.clone()));
        }
        proof {
            let ev = row_views(env@);
            assert(ev.take(i as int + 1).drop_last() =~= ev.take(i as int));
            assert(ev.take(i as int + 1).last() == ev[i as int]);
            assert(ev[i as int].0 == env@[i as int].0@);
            if keep {
                assert(row_views(out@) =~= env_sans(ev.take(i as int), key@).push(ev[i as int]));
            }
            assert(row_views(out@) =~= env_sans(ev.take(i as int + 1), key@));
        }
        i += 1;
    }
    proof {
        assert(row_views(env@).take(env.len() as int) =~= row_views(env@));
    }
    out
}

/// Builds the launch environment: the caller's rows, with the package
/// index override inserted under `key` when a registry URL is present.
fn build_env(server: &MCPServer, key: String) -> (r: Vec<(String, String)>)
    ensures
        row_views(r@) == planned_env(server, key@),
{
    let mut out: Vec<(String, String)> = match &server.env {
        Some(e) => match &server.registryUrl {
            Some(_) => env_without(e, &key),
            None => clone_env_rows(e),
        },
        None => Vec::new(),
    };
    proof {
        if server.env is None {
            assert(row_views(out@) =~= server.env_views());
            if server.registryUrl is Some {
                assert(env_sans(server.env_views(), key@) =~= server.env_views());
            }
        }
    }
    match &server.registryUrl {
        Some(u) => {
            let ghost before: Seq<(Seq<char>, Seq<char>)> = row_views(out@);
            out.push((key, u.clone()));
            proof {
                assert(row_views(out@) =~= before.push((key@, u@)));
            }
        },
        None => {},
    }
    out
}

/// Validates a local-spawn descriptor and rewrites it into a launch plan.
///
/// Rejections follow `local_verdict`: too many arguments, then a missing
/// command, then an unrecognized alias.  An accepted descriptor is
/// rewritten as `local_plan_matches` states.
pub fn plan_local(server: &MCPServer) -> (r: Result<LaunchPlan, CommandError>)
    ensures
        local_verdict(server) matches Err(e) ==> r == Err::<LaunchPlan, CommandError>(e),
        local_verdict(server) is Ok ==> (r matches Ok(p) && local_plan_matches(server, p)),
{
    let arg_len: usize = match &server.args {
        Some(a) => a.len(),
        None => 0,
    };
    if arg_len > ARG_LIMIT {
        return Err(CommandError::ArgumentLimitExceeded);
    }
    let command = match &server.command {
        Some(c) => c,
        None => {
            return Err(CommandError::MissingCommand);
        },
    };
    let uvx: String = "uvx".to_owned();
    let npx: String = "npx".to_owned();
    if *command == uvx {
        let mut args: Vec<String> = Vec::new();
        args.push("tool".to_owned());
        args.push("run".to_owned());
        args.push("-q".to_owned());
        args.push("--no-progress".to_owned());
        proof {
            assert(str_views(args@) =~= uvx_prefix());
        }
        let args = match &server.args {
            Some(a) => extend_cloned(args, a),
            None => {
                proof {
                    assert(uvx_prefix() + server.arg_views() =~= uvx_prefix());
                }
                args
            },
        };
        let env = build_env(server, "UV_DEFAULT_INDEX".to_owned());
        Ok(LaunchPlan { program: "uv".to_owned(), args, env })
    } else if *command == npx {
        let mut args: Vec<String> = Vec::new();
        args.push("x".to_owned());
        args.push("--silent".to_owned());
        proof {
            assert(str_views(args@) =~= npx_prefix());
        }
        let args = match &server.args {
            Some(a) => extend_cloned(args, a),
            None => {
                proof {
                    assert(npx_prefix() + server.arg_views() =~= npx_prefix());
                }
                args
            },
        };
        let env = build_env(server, "NPM_CONFIG_REGISTRY".to_owned());
        Ok(LaunchPlan { program: "bun".to_owned(), args, env })
    } else {
        Err(CommandError::InvalidCommand)
    }
}

} // verus!
