//! The system prompt sent with every model invocation. The working
//! directory and operating system are environment facts the caller
//! probes; given them, the prompt text is fixed.

use vstd::prelude::*;
use vstd::string::StringExecFns;

verus! {

/// The part of the system prompt that precedes the environment facts.
pub open spec fn prompt_preamble() -> Seq<char> {
    "You are an expert programmer and CLI chat assistant. You are given a list of tools to use to answer a given prompt.\n\nYou should only respond to tasks related to coding. You must never make assumptions about the user's environment. If you need more information,\nyou MUST make a tool use request.\n\nContext about the user's environment is provided below:\n- Current working directory: "@
}

/// The separator between the working directory and the operating system.
pub open spec fn prompt_os_label() -> Seq<char> {
    "\n- Operating system: "@
}

/// The prompt's closing newline.
pub open spec fn prompt_closing() -> Seq<char> {
    "\n"@
}

/// Creates the system prompt with context about the user's environment:
/// the fixed instructions, then the working directory and the operating
/// system, exactly in that order.
pub fn create_system_prompt(cwd: &str, os: &str) -> (r: String)
    ensures
        r@ == prompt_preamble() + cwd@ + prompt_os_label() + os@ + prompt_closing(),
{
    let mut prompt = String::from_str(
        "You are an expert programmer and CLI chat assistant. You are given a list of tools to use to answer a given prompt.\n\nYou should only respond to tasks related to coding. You must never make assumptions about the user's environment. If you need more information,\nyou MUST make a tool use request.\n\nContext about the user's environment is provided below:\n- Current working directory: ",
    );
    prompt.append(cwd);
    prompt.append("\n- Operating system: ");
    prompt.append(os);
    prompt.append("\n");
    prompt
}

} // verus!
