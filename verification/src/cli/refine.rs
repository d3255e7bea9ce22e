//! Arguments of `inspectah refine`.

use vstd::prelude::*;

verus! {

/// Arguments of the refine subcommand.
pub struct RefineArgs {
    /// Path to the scan output tarball (.tar.gz).
    pub tarball: String,
    /// Port to bind (8642 by default; 0 for an ephemeral port).
    pub port: u16,
    /// Open the browser automatically.
    pub open: bool,
    /// Start a fresh session, discarding saved progress.
    pub fresh: bool,
}

/// The answer to the resume prompt.
#[derive(Debug, Clone, Copy, PartialEq, Eq, Structural)]
pub enum ResumeChoice {
    Resume,
    Fresh,
    /// Quit normally (exit 0).
    Quit,
    /// An answer that is none of the choices: quit with an error (exit 1).
    Invalid,
}

/// The resume prompt's answer, from the lowercased, trimmed input: `r` or
/// `resume`, `f` or `fresh`, `q`, `quit` or nothing to quit; anything
/// else is invalid.
pub open spec fn resume_choice_spec(answer: Seq<char>) -> ResumeChoice {
    if answer == "r"@ || answer == "resume"@ {
        ResumeChoice::Resume
    } else if answer == "f"@ || answer == "fresh"@ {
        ResumeChoice::Fresh
    } else if answer == "q"@ || answer == "quit"@ || answer.len() == 0 {
        ResumeChoice::Quit
    } else {
        ResumeChoice::Invalid
    }
}

/// Interpret the answer to the resume prompt (already trimmed and lowercased).
pub fn resume_choice(answer: &str) -> (c: ResumeChoice)
    ensures
        c == resume_choice_spec(answer@),
{
    if crate::text::str_eq(answer, "r") || crate::text::str_eq(answer, "resume") {
        ResumeChoice::Resume
    } else if crate::text::str_eq(answer, "f") || crate::text::str_eq(answer, "fresh") {
        ResumeChoice::Fresh
    } else if crate::text::str_eq(answer, "q") || crate::text::str_eq(answer, "quit") || crate::text::str_eq(answer, "") {
        proof { reveal_strlit(""); }
        ResumeChoice::Quit
    } else {
        proof { reveal_strlit(""); }
        assert(answer@.len() != 0) by {
            if answer@.len() == 0 {
                assert(answer@ =~= ""@);
            }
        }
        ResumeChoice::Invalid
    }
}

} // verus!
