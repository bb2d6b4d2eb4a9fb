//! What the commands hand back, and how their `KEY=VALUE` arguments are
//! read.

use vstd::prelude::*;
use crate::json::{json_text, json_text_of};
use crate::text::split_once;

verus! {

/// A command's result, as the value that is written out.
pub trait CommandResult<T> {
    /// The value to write out.
    fn get_result(&self) -> &T;
}

/// What the agent command hands back.
#[derive(Debug)]
pub struct AgentResult {
    pub output: String,
}

impl CommandResult<AgentResult> for AgentResult {
    fn get_result(&self) -> (r: &AgentResult)
        ensures
            *r == *self,
    {
        self
    }
}

/// What the generate command hands back.
#[derive(Debug)]
pub struct GenerateResult {
    pub output: String,
}

impl CommandResult<GenerateResult> for GenerateResult {
    fn get_result(&self) -> (r: &GenerateResult)
        ensures
            *r == *self,
    {
        self
    }
}

/// What the image command hands back.
#[derive(Debug)]
pub struct ImageResult {
    pub output_path: String,
    pub revised_prompt: Option<String>,
}

impl CommandResult<ImageResult> for ImageResult {
    fn get_result(&self) -> (r: &ImageResult)
        ensures
            *r == *self,
    {
        self
    }
}

/// What a `KEY=VALUE` argument splits into at its first `=`.
pub open spec fn is_key_val(s: Seq<char>, key: Seq<char>, value: Seq<char>) -> bool {
    s == key + seq!['='] + value && !key.contains('=')
}

/// Splits a `KEY=VALUE` argument at its first `=` into the key and the
/// value as a JSON string; an argument without `=` is refused, and the
/// refusal quotes it.
pub fn parse_key_val(s: &str) -> (r: Result<(String, serde_json::Value), String>)
    ensures
        match r {
            Ok((key, value)) => key@.len() < s@.len() && is_key_val(s@, key@, s@.skip(key@.len() as int + 1))
                && value == json_text_of(s@.skip(key@.len() as int + 1)),
            Err(message) => !s@.contains('=') && message@ == "invalid KEY=VALUE: no `=` found in `"@ + s@ + "`"@,
        },
{
    match split_once(s, '=') {
        Some((key, value)) => {
            let name = key.to_owned();
            let document = json_text(value.to_owned());
            assert(s@.skip(name@.len() as int + 1) =~= value@);
            Ok((name, document))
        },
        None => {
            let mut message = "invalid KEY=VALUE: no `=` found in `".to_owned();
            message.append(s);
            message.append("`");
            assert(message@ =~= "invalid KEY=VALUE: no `=` found in `"@ + s@ + "`"@);
            Err(message)
        },
    }
}

} // verus!
