//! The child-process invocation for a request, as plain values.
use vstd::prelude::*;

use crate::request::NodeExecutionInput;

verus! {

/// How to start the interpreter on a scratch file. Standard input is always closed and
/// both output streams captured; the host applies the rest of the plan as given.
pub struct LaunchPlan {
    /// Interpreter, looked up on the search path.
    pub program: String,
    /// Arguments: the scratch file path, then the request's own arguments.
    pub args: Vec<String>,
    /// Working directory of the child; `None` keeps the parent's.
    pub working_directory: Option<String>,
    /// Variables set on the child, in order, over the inherited environment.
    pub environment: Vec<(String, String)>,
}

/// The interpreter's name.
pub open spec fn interpreter() -> Seq<char> {
    seq!['n', 'o', 'd', 'e']
}

/// The working directory that a request asks for: none when it is empty.
pub open spec fn planned_directory(wd: String) -> Option<String> {
    if wd@.len() == 0 {
        None
    } else {
        Some(wd)
    }
}

/// Plans the child process that runs the script stored at `artifact_path`.
pub fn plan_launch(artifact_path: &str, input: &NodeExecutionInput) -> (r: LaunchPlan)
    ensures
        r.program@ == interpreter(),
        r.args.deep_view() == seq![artifact_path@] + input.args.deep_view(),
        r.working_directory == planned_directory(input.working_directory),
        r.environment.deep_view() == input.env_view(),
{
    proof {
        reveal_strlit("node");
    }
    let program = String::from_str("node");
    assert(program@ =~= interpreter());
    let mut args: Vec<String> = Vec::new();
    args.push(String::from_str(artifact_path));
    let n = input.args.len();
    let mut i: usize = 0;
    while i < n
        invariant
            n == input.args@.len(),
            i <= n,
            args.deep_view() =~= seq![artifact_path@] + input.args.deep_view().take(i as int),
        decreases n - i,
    {
        let ghost before = args.deep_view();
        let a = input.args[i].clone();
        args.push(a);
        assert(args.deep_view() =~= before.push(input.args.deep_view()[i as int]));
        assert(input.args.deep_view().take(i + 1) =~= input.args.deep_view().take(i as int).push(
            input.args.deep_view()[i as int],
        ));
        i = i + 1;
        assert(args.deep_view() =~= seq![artifact_path@] + input.args.deep_view().take(i as int));
    }
    assert(input.args.deep_view().take(n as int) =~= input.args.deep_view());
    let mut environment: Vec<(String, String)> = Vec::new();
    let m = input.environment.len();
    let mut j: usize = 0;
    while j < m
        invariant
            m == input.environment@.len(),
            j <= m,
            environment.deep_view() =~= input.env_view().take(j as int),
        decreases m - j,
    {
        let k = input.environment[j].0.clone();
        let v = input.environment[j].1.clone();
        let ghost before = environment.deep_view();
        environment.push((k, v));
        assert(environment.deep_view() =~= before.push(input.env_view()[j as int]));
        assert(input.env_view().take(j + 1) =~= input.env_view().take(j as int).push(
            input.env_view()[j as int],
        ));
        j = j + 1;
        assert(environment.deep_view() =~= input.env_view().take(j as int));
    }
    assert(input.env_view().take(m as int) =~= input.env_view());
    let working_directory = if input.working_directory.as_str().is_empty() {
        None
    } else {
        Some(input.working_directory.clone())
    };
    LaunchPlan { program, args, working_directory, environment }
}

} // verus!
