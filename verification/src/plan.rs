//! Launch planning: turn a language identifier and a resource-root directory
//! into the concrete program to spawn (a binary path, or an interpreter with a
//! script path), or into the descriptive error for a language that cannot be
//! run directly. Pure string construction; the spawn itself is the caller's.

use vstd::prelude::*;
use crate::resolver::ExecMode;
use crate::resolver::StrategyView;
use crate::resolver::exec_mode;
use crate::resolver::mode_of;
use crate::text::contains_seq;
use crate::text::lemma_concat_contains_middle;

verus! {

/// What the caller must spawn: either a precompiled binary at `path` with no
/// arguments, or `program` (resolved on the search path) with the script path
/// as its sole argument. `name` and `program` are kept for error reporting.
pub enum LaunchPlan {
    Binary { name: String, path: String },
    Interpreter { program: String, script_path: String },
}

/// The mathematical shape of a launch plan.
pub enum PlanView {
    Binary { name: Seq<char>, path: Seq<char> },
    Interpreter { program: Seq<char>, script_path: Seq<char> },
}

impl View for LaunchPlan {
    type V = PlanView;

    open spec fn view(&self) -> PlanView {
        match self {
            LaunchPlan::Binary { name, path } => PlanView::Binary {
                name: name@,
                path: path@,
            },
            LaunchPlan::Interpreter { program, script_path } => PlanView::Interpreter {
                program: program@,
                script_path: script_path@,
            },
        }
    }
}

/// The path of a bundled file: directly under the resource root's `binaries`
/// subfolder.
pub open spec fn binaries_path(root: Seq<char>, file: Seq<char>) -> Seq<char> {
    root + "/binaries/"@ + file
}

/// The error text for a language outside the strategy table.
pub open spec fn unsupported_msg(lang: Seq<char>) -> Seq<char> {
    "Language '"@ + lang
        + "' requires a full build toolchain and cannot be run directly here."@
}

/// The plan that a language identifier and a resource root determine: a
/// launch for each identifier in the strategy table, the unsupported error
/// for every other identifier.
pub open spec fn plan_for(lang: Seq<char>, root: Seq<char>) -> Result<PlanView, Seq<char>> {
    match mode_of(lang) {
        StrategyView::Binary(name) => Ok(
            PlanView::Binary { name, path: binaries_path(root, name) },
        ),
        StrategyView::Interpreter(program, script) => Ok(
            PlanView::Interpreter { program, script_path: binaries_path(root, script) },
        ),
        StrategyView::NotRunnable => Err(unsupported_msg(lang)),
    }
}

fn join_binaries(root: &str, file: &str) -> (r: String)
    ensures
        r@ == binaries_path(root@, file@),
{
    let mut s = String::from_str(root);
    s.append("/binaries/");
    s.append(file);
    s
}

/// The unsupported-language error, as displayable text.
pub fn unsupported_message(lang: &str) -> (r: String)
    ensures
        r@ == unsupported_msg(lang@),
{
    let mut s = String::from_str("Language '");
    s.append(lang);
    s.append("' requires a full build toolchain and cannot be run directly here.");
    s
}

/// Resolve a language identifier and build its launch plan under the given
/// resource root. Returns the plan exactly when the strategy table classifies
/// the identifier as runnable, and the unsupported error otherwise; no
/// process is involved.
pub fn plan_launch(lang: &str, resource_root: &str) -> (r: Result<LaunchPlan, String>)
    ensures
        match plan_for(lang@, resource_root@) {
            Ok(p) => (r matches Ok(plan) && plan@ == p),
            Err(m) => (r matches Err(e) && e@ == m),
        },
{
    match exec_mode(lang) {
        ExecMode::Binary(name) => {
            let path = join_binaries(resource_root, name);
            Ok(LaunchPlan::Binary { name: String::from_str(name), path })
        },
        ExecMode::Interpreter(program, script) => {
            let script_path = join_binaries(resource_root, script);
            Ok(LaunchPlan::Interpreter { program: String::from_str(program), script_path })
        },
        ExecMode::NotRunnable => Err(unsupported_message(lang)),
    }
}

/// The unsupported-language error mentions the language identifier itself.
pub proof fn lemma_unsupported_msg_mentions_language(lang: Seq<char>)
    ensures
        contains_seq(unsupported_msg(lang), lang),
{
    lemma_concat_contains_middle(
        "Language '"@,
        lang,
        "' requires a full build toolchain and cannot be run directly here."@,
    );
}

/// An identifier absent from the strategy table plans to no launch at all,
/// only to an error that mentions that identifier.
pub proof fn lemma_unsupported_plan_mentions_language(lang: Seq<char>, root: Seq<char>)
    requires
        mode_of(lang) is NotRunnable,
    ensures
        plan_for(lang, root) matches Err(m) && contains_seq(m, lang),
{
    lemma_unsupported_msg_mentions_language(lang);
}

} // verus!
