//! The text-generation request built around a filtered diff.
use vstd::prelude::*;

verus! {

/// Opening of every prompt, up to the project context.
pub const PROMPT_OPENING: &'static str = "Analyze the git diff below and generate a conventional commit message.\n\nProject context:\n";

/// Instructions when messages will be decorated: no scope is asked for.
pub const INSTRUCTIONS_PLAIN_FORMAT: &'static str = "\n\nInstructions:\n\
    1. Look at each file name, added lines (+), and removed lines (-)\n\
    2. Determine the type based on changes:\n\
    - feat: new features\n\
    - fix: bug fixes\n\
    - chore: maintenance/config\n\
    - docs: documentation\n\
    - style: formatting\n\
    - refactor: code restructuring\n\
    - test: adding/updating tests\n\
    - perf: performance improvements\n\
    3. Format: type description\n\
    4. Keep description concise\n\
    5. Return ONLY the commit message\n\n\
    RESPECT CONVENTIONAL COMMIT SPECIFICATION.\n\n\
    RETURN ONLY THE COMMIT MESSAGE.\n\n\
    RESPECT CONVENTIONAL COMMIT SPECIFICATION.\n\n\
    Git diff:\n";

/// Instructions for undecorated messages: a scope taken from the paths.
pub const INSTRUCTIONS_SCOPED_FORMAT: &'static str = "\n\nInstructions:\n\
    1. Look at each file name, added lines (+), and removed lines (-)\n\
    2. Determine the type based on changes:\n\
    - feat: new features\n\
    - fix: bug fixes\n\
    - chore: maintenance/config\n\
    - docs: documentation\n\
    - style: formatting\n\
    - refactor: code restructuring\n\
    - test: adding/updating tests\n\
    - perf: performance improvements\n\
    3. Determine scope from file path (e.g., client, server, ui)\n\
    4. Write description of what changed\n\
    5. Format: type(scope): description\n\
    6. Keep description concise\n\
    7. Return ONLY the commit message\n\n\
    RESPECT CONVENTIONAL COMMIT SPECIFICATION.\n\n\
    RETURN ONLY THE COMMIT MESSAGE.\n\n\
    RESPECT CONVENTIONAL COMMIT SPECIFICATION.\n\n\
    Git diff:\n";

/// Closing cue: where the diff ends and the answer is expected.
pub const PROMPT_CUE: &'static str = "\n\nCommit message:";

/// The instructions used for the given decoration choice.
pub open spec fn instructions(use_emoji: bool) -> Seq<char> {
    if use_emoji {
        INSTRUCTIONS_PLAIN_FORMAT@
    } else {
        INSTRUCTIONS_SCOPED_FORMAT@
    }
}

/// The prompt: opening, project context, instructions, the diff unchanged,
/// and the closing cue.
pub open spec fn prompt_text(diff: Seq<char>, project_context: Seq<char>, use_emoji: bool) -> Seq<
    char,
> {
    PROMPT_OPENING@ + project_context + instructions(use_emoji) + diff + PROMPT_CUE@
}

/// Builds the generation prompt around the project context and the diff.
pub fn generate_commit_prompt(diff: &str, project_context: &str, use_emoji: bool) -> (r: String)
    ensures
        r@ == prompt_text(diff@, project_context@, use_emoji),
{
    let mut r = String::from_str(PROMPT_OPENING);
    r.append(project_context);
    if use_emoji {
        r.append(INSTRUCTIONS_PLAIN_FORMAT);
    } else {
        r.append(INSTRUCTIONS_SCOPED_FORMAT);
    }
    r.append(diff);
    r.append(PROMPT_CUE);
    r
}

} // verus!
