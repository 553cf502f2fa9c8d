//! The decision logic of the process runner: how relayed output lines
//! are tagged, and how a subprocess termination status becomes the
//! pipeline outcome.  Spawning, stream draining and waiting are left to
//! the embedding application, which must drain both streams
//! concurrently and feed each line through `prefixed_line`.

use vstd::prelude::*;
use vstd::string::StringExecFns;
use crate::errors::BuildError;

verus! {

/// The tag every relayed line starts with; the containerized backend
/// is additionally marked.
pub open spec fn output_prefix_spec(docker: bool) -> Seq<char> {
    if docker {
        "[sp1] [docker] "@
    } else {
        "[sp1] "@
    }
}

/// The line tag for the chosen backend.
pub fn output_prefix(docker: bool) -> (r: String)
    ensures
        r@ == output_prefix_spec(docker),
{
    if docker {
        "[sp1] [docker] ".to_owned()
    } else {
        "[sp1] ".to_owned()
    }
}

/// One relayed line: the tag, one separating space, and the line
/// itself, unchanged.
pub open spec fn prefixed_line_spec(prefix: Seq<char>, line: Seq<char>) -> Seq<char> {
    prefix + " "@ + line
}

/// Tag one line of subprocess output.
pub fn prefixed_line(prefix: &str, line: &str) -> (r: String)
    ensures
        r@ == prefixed_line_spec(prefix@, line@),
{
    let mut r = prefix.to_owned();
    r.append(" ");
    r.append(line);
    r
}

/// Relay one stream's lines: every line appears in the result exactly
/// once, tagged, in its original order — the runner adds nothing and
/// drops nothing.
pub fn relay_lines(prefix: &str, lines: &Vec<String>) -> (r: Vec<String>)
    ensures
        r.deep_view().len() == lines.deep_view().len(),
        forall|i: int|
            0 <= i < lines.deep_view().len() ==> #[trigger] r.deep_view()[i] == prefixed_line_spec(
                prefix@,
                lines.deep_view()[i],
            ),
{
    let mut r: Vec<String> = Vec::new();
    let mut i: usize = 0;
    while i < lines.len()
        invariant
            i <= lines.len(),
            r.deep_view().len() == i,
            forall|j: int|
                0 <= j < i ==> #[trigger] r.deep_view()[j] == prefixed_line_spec(
                    prefix@,
                    lines.deep_view()[j],
                ),
        decreases lines.len() - i,
    {
        let tagged = prefixed_line(prefix, lines[i].as_str());
        let ghost prev = r.deep_view();
        r.push(tagged);
        proof {
            assert(lines.deep_view()[i as int] == lines@[i as int]@);
            assert(r.deep_view() =~= prev.push(
                prefixed_line_spec(prefix@, lines.deep_view()[i as int]),
            ));
        }
        i = i + 1;
    }
    r
}

/// The exit code the whole invocation reports after a failed build:
/// the subprocess's own code, or 1 when a signal ended it and it
/// reports none.
pub open spec fn reported_exit_code(exit_code: Option<i32>) -> i32 {
    match exit_code {
        Some(c) => c,
        None => 1,
    }
}

/// Map a subprocess termination status to the pipeline outcome.
///
/// Success is exactly exit code zero.  Any other termination carries
/// only the reported exit code: the subprocess's diagnostics were
/// already relayed, so no duplicate message is attached.
pub fn process_outcome(exit_code: Option<i32>) -> (r: Result<(), BuildError>)
    ensures
        r is Ok <==> exit_code == Some(0i32),
        r matches Err(e) ==> e == (BuildError::ProcessFailure {
            exit_code: reported_exit_code(exit_code),
        }),
{
    match exit_code {
        Some(0i32) => Ok(()),
        Some(c) => Err(BuildError::ProcessFailure { exit_code: c }),
        None => Err(BuildError::ProcessFailure { exit_code: 1 }),
    }
}

} // verus!
