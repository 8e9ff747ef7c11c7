use vstd::prelude::*;
use vstd::string::StringExecFns;
use crate::command::{command_prefix, is_maybe_command};
use crate::text::chars_of;

verus! {

/// Whether a line can be handed over as it is.
#[derive(Debug, Clone, Copy, PartialEq, Eq, Structural)]
pub enum Validation {
    /// The line is complete.
    Valid,
    /// More is to come: the input goes on in the next line.
    Incomplete,
}

/// Whether the input is complete: a command always is, a statement is once
/// it ends with a semicolon.
pub open spec fn is_complete(input: Seq<char>) -> bool {
    command_prefix().is_prefix_of(input) || (input.len() > 0 && input.last() == ';')
}

/// Validate that a line is a command or ends with a semicolon.
pub fn validate_statement(input: &str) -> (r: Validation)
    ensures
        r == if is_complete(input@) {
            Validation::Valid
        } else {
            Validation::Incomplete
        },
{
    if is_maybe_command(input) {
        return Validation::Valid;
    }
    let chars = chars_of(input);
    if chars.len() > 0 && chars[chars.len() - 1] == ';' {
        Validation::Valid
    } else {
        Validation::Incomplete
    }
}

/// If first is valid, the outcome is second. Otherwise it is first.
pub fn chain_validation(first: Validation, second: Validation) -> (r: Validation)
    ensures
        r == if first == Validation::Valid {
            second
        } else {
            first
        },
{
    match first {
        Validation::Valid => second,
        Validation::Incomplete => first,
    }
}

/// The name that the prompt shows when no connection is in use.
pub open spec fn default_prompt_name() -> Seq<char> {
    "sqlfriend"@
}

/// The prompt: the name of the connection in use, or else of the program,
/// and `> ` behind it.
pub fn get_prompt(connection: Option<&str>) -> (r: String)
    ensures
        r@ == match connection {
            Some(name) => name@,
            None => default_prompt_name(),
        } + "> "@,
{
    let mut prompt = match connection {
        Some(name) => String::from_str(name),
        None => String::from_str("sqlfriend"),
    };
    prompt.append("> ");
    prompt
}

} // verus!
