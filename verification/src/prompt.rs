//! Prompt construction: the request is framed by a fixed chat template
//! with a system instruction and exactly one exemplar pair, so the model
//! answers with a bare shell command in the style of the exemplar.

use vstd::prelude::*;
use vstd::string::StringExecFns;

verus! {

/// Everything that stands before the request: the system instruction,
/// the single exemplar pair, and the opening of the final user turn.
pub open spec fn prompt_prefix() -> Seq<char> {
    "<|im_start|>system\nYou are a command line tool. Output ONLY the raw shell command. Do not use markdown code blocks.<|im_end|>\n<|im_start|>user\nlist all files in detail\n<|im_end|>\n<|im_start|>assistant\nls -la\n<|im_end|>\n<|im_start|>user\n"@
}

/// Everything after the request: it closes the user turn and opens the
/// assistant turn that the model is to fill.
pub open spec fn prompt_suffix() -> Seq<char> {
    "<|im_end|>\n<|im_start|>assistant\n"@
}

/// Builds the full prompt: fixed prefix, then the request verbatim, then
/// the fixed suffix. Nothing else is substituted and nothing is escaped.
pub fn build_prompt(request: &str) -> (r: String)
    ensures
        r@ == prompt_prefix() + request@ + prompt_suffix(),
{
    let mut p = String::from_str(
        "<|im_start|>system\nYou are a command line tool. Output ONLY the raw shell command. Do not use markdown code blocks.<|im_end|>\n<|im_start|>user\nlist all files in detail\n<|im_end|>\n<|im_start|>assistant\nls -la\n<|im_end|>\n<|im_start|>user\n",
    );
    p.append(request);
    p.append("<|im_end|>\n<|im_start|>assistant\n");
    proof {
        assert(p@ =~= prompt_prefix() + request@ + prompt_suffix());
    }
    p
}

} // verus!
