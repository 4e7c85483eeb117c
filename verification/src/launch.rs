//! The process-pipeline planner: realizes a launch request as a plan for one
//! or two child processes, built from the already-substituted stream and
//! player templates.
//!
//! The plan is data, not I/O: it fixes the argument vectors and the wiring
//! of every standard stream, and the surrounding program spawns exactly what
//! the plan says.  With no player tokens the stream process runs alone and
//! its process identifier is reported back; with player tokens the stream
//! process's standard output is copied into the player's standard input and
//! no identifier is reported.
use vstd::prelude::*;

use crate::template::{
    quotes_balanced, render_template, rendered_tokens, tokens_of, ConfigError, SubstitutionValues,
};
use crate::text::views_of;

verus! {

/// How one standard stream of a child process is wired at spawn time.
#[derive(Clone, Copy, Debug, PartialEq, Eq, Structural)]
pub enum StdioMode {
    /// Closed: the child reads or writes nothing there.
    Null,
    /// Connected to a pipe held by the launcher.
    Piped,
    /// Shared with the parent process, for diagnostics.
    Inherit,
}

/// One process to spawn: the argument vector, executable first, and the
/// wiring of its three standard streams.
#[derive(Clone, Debug)]
pub struct SpawnSpec {
    pub argv: Vec<String>,
    pub stdin: StdioMode,
    pub stdout: StdioMode,
    pub stderr: StdioMode,
}

/// A launch realized as one or two cooperating child processes.
#[derive(Clone, Debug)]
pub enum LaunchPlan {
    /// Only the stream process runs; its output is discarded and its
    /// process identifier is reported back for bookkeeping.
    Single { stream: SpawnSpec },
    /// The stream process's standard output is copied into the player
    /// process's standard input until the source is exhausted or fails.
    /// No process identifier is reported in this mode.
    Piped { stream: SpawnSpec, player: SpawnSpec },
}

/// A player stage is wanted exactly when the player template has tokens; a
/// template with none (empty or all whitespace) means "no player".
pub open spec fn uses_player(player_tmpl: Seq<char>) -> bool {
    tokens_of(player_tmpl).len() > 0
}

/// The templates admit a plan: both sides have balanced quoting and the
/// stream template has at least one token to serve as the executable.
pub open spec fn plan_ok(stream_tmpl: Seq<char>, player_tmpl: Seq<char>) -> bool {
    &&& quotes_balanced(stream_tmpl)
    &&& tokens_of(stream_tmpl).len() > 0
    &&& quotes_balanced(player_tmpl)
}

/// The fault reported when the templates admit no plan: the stream template
/// is checked first, then the player template.
pub open spec fn plan_error(stream_tmpl: Seq<char>, player_tmpl: Seq<char>) -> ConfigError {
    if !quotes_balanced(stream_tmpl) {
        ConfigError::UnbalancedQuotes
    } else if tokens_of(stream_tmpl).len() == 0 {
        ConfigError::EmptyStreamCommand
    } else {
        ConfigError::UnbalancedQuotes
    }
}

/// The plan realizes the two templates under the given placeholder values:
/// right mode, right argument vectors, right stream wiring.
pub open spec fn plan_matches(
    plan: LaunchPlan,
    stream_tmpl: Seq<char>,
    player_tmpl: Seq<char>,
    title: Seq<char>,
    oauth: Seq<char>,
    user: Seq<char>,
    disp: Seq<char>,
) -> bool {
    match plan {
        LaunchPlan::Single { stream } => {
            &&& !uses_player(player_tmpl)
            &&& views_of(stream.argv@) == rendered_tokens(stream_tmpl, title, oauth, user, disp)
            &&& stream.stdin == StdioMode::Null
            &&& stream.stdout == StdioMode::Null
            &&& stream.stderr == StdioMode::Inherit
        },
        LaunchPlan::Piped { stream, player } => {
            &&& uses_player(player_tmpl)
            &&& views_of(stream.argv@) == rendered_tokens(stream_tmpl, title, oauth, user, disp)
            &&& views_of(player.argv@) == rendered_tokens(player_tmpl, title, oauth, user, disp)
            &&& stream.stdin == StdioMode::Null
            &&& stream.stdout == StdioMode::Piped
            &&& stream.stderr == StdioMode::Null
            &&& player.stdin == StdioMode::Piped
            &&& player.stdout == StdioMode::Null
            &&& player.stderr == StdioMode::Null
        },
    }
}

/// The caller gets a process identifier back exactly in single mode.
pub open spec fn reports_process_id(plan: LaunchPlan) -> bool {
    plan is Single
}

/// Routing law: a plan built from a player template with tokens pipes the
/// stream process's standard output into the player process's standard
/// input and reports no process identifier; a plan built from a player
/// template without tokens runs the stream process alone, pipes nothing,
/// and reports the identifier.
pub proof fn lemma_plan_routing(
    plan: LaunchPlan,
    stream_tmpl: Seq<char>,
    player_tmpl: Seq<char>,
    title: Seq<char>,
    oauth: Seq<char>,
    user: Seq<char>,
    disp: Seq<char>,
)
    requires
        plan_matches(plan, stream_tmpl, player_tmpl, title, oauth, user, disp),
    ensures
        uses_player(player_tmpl) ==> (plan matches LaunchPlan::Piped { stream, player }
            && stream.stdout == StdioMode::Piped && player.stdin == StdioMode::Piped
            && !reports_process_id(plan)),
        !uses_player(player_tmpl) ==> (plan matches LaunchPlan::Single { stream }
            && stream.stdout == StdioMode::Null && reports_process_id(plan)),
{
}

/// Rejection law: a stream command template without tokens (empty or all
/// whitespace) admits no plan, so nothing is ever spawned from it; when its
/// quoting is balanced, the fault reported is the empty stream command.
pub proof fn lemma_tokenless_stream_template_rejected(stream_tmpl: Seq<char>, player_tmpl: Seq<char>)
    requires
        tokens_of(stream_tmpl).len() == 0,
    ensures
        !plan_ok(stream_tmpl, player_tmpl),
        quotes_balanced(stream_tmpl) ==> plan_error(stream_tmpl, player_tmpl)
            == ConfigError::EmptyStreamCommand,
{
}

/// Builds the launch plan for the two templates under the given values.
/// Succeeds exactly when the quoting of both templates is balanced and the
/// stream template has at least one token; no process is spawned here, so a
/// degenerate stream command is rejected before any spawn attempt.
pub fn build_launch_plan(
    stream_tmpl: &str,
    player_tmpl: &str,
    vals: &SubstitutionValues,
) -> (r: Result<LaunchPlan, ConfigError>)
    ensures
        r is Ok <==> plan_ok(stream_tmpl@, player_tmpl@),
        r matches Ok(plan) ==> plan_matches(
            plan,
            stream_tmpl@,
            player_tmpl@,
            vals.title@,
            vals.oauth_token@,
            vals.broadcaster_username@,
            vals.broadcaster_displayname@,
        ),
        r matches Err(e) ==> e == plan_error(stream_tmpl@, player_tmpl@),
{
    let stream_args = match render_template(stream_tmpl, vals) {
        Ok(v) => v,
        Err(e) => {
            return Err(e);
        },
    };
    proof {
        assert(views_of(stream_args@).len() == tokens_of(stream_tmpl@).len());
    }
    if stream_args.len() == 0 {
        return Err(ConfigError::EmptyStreamCommand);
    }
    let player_args = match render_template(player_tmpl, vals) {
        Ok(v) => v,
        Err(e) => {
            return Err(e);
        },
    };
    proof {
        assert(views_of(player_args@).len() == tokens_of(player_tmpl@).len());
    }
    if player_args.len() == 0 {
        Ok(
            LaunchPlan::Single {
                stream: SpawnSpec {
                    argv: stream_args,
                    stdin: StdioMode::Null,
                    stdout: StdioMode::Null,
                    stderr: StdioMode::Inherit,
                },
            },
        )
    } else {
        Ok(
            LaunchPlan::Piped {
                stream: SpawnSpec {
                    argv: stream_args,
                    stdin: StdioMode::Null,
                    stdout: StdioMode::Piped,
                    stderr: StdioMode::Null,
                },
                player: SpawnSpec {
                    argv: player_args,
                    stdin: StdioMode::Piped,
                    stdout: StdioMode::Null,
                    stderr: StdioMode::Null,
                },
            },
        )
    }
}

} // verus!
