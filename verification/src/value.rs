//! What a script evaluated to, as text.
//!
//! A value belongs to the engine that produced it. What leaves the engine is
//! the value's display text, made by the thread that owns the engine while the
//! engine is alive; from then on it is ordinary text.

use crate::error::ScriptError;
use vstd::prelude::*;
use vstd::utf8::{decode_utf8, encode_utf8, encode_utf8_decode_utf8, valid_utf8};

verus! {

/// The final value of a script, as far as the outside of the engine sees it.
#[derive(Debug, PartialEq, Eq)]
pub enum ScriptValue {
    /// The script had no value to give, as an empty script has none.
    Undefined,
    /// The display text of any other value.
    Text(String),
}

/// `core::str::Utf8Error`, what `core::str::from_utf8` fails with. It is
/// carried through unread: nothing is claimed of what it holds.
#[verifier::external_type_specification]
#[verifier::external_body]
pub struct ExUtf8Error(core::str::Utf8Error);

/// `core::str::from_utf8` accepts exactly the byte strings that are valid
/// UTF-8, and the text it returns is the one that those bytes encode.
pub assume_specification[ core::str::from_utf8 ](bytes: &[u8]) -> (result: Result<
    &str,
    core::str::Utf8Error,
>)
    ensures
        result is Ok <==> valid_utf8(bytes@),
        result matches Ok(text) ==> encode_utf8(text@) == bytes@,
;

/// The text that `bytes` encode, if they are valid UTF-8.
pub open spec fn decoded(bytes: Seq<u8>) -> Option<Seq<char>> {
    if valid_utf8(bytes) {
        Some(decode_utf8(bytes))
    } else {
        None
    }
}

/// Whether `text` is what converting `bytes` yields: the text that they
/// encode, or nothing where they encode none.
pub open spec fn converts_to(bytes: Seq<u8>, text: Option<String>) -> bool {
    match text {
        Some(text) => decoded(bytes) == Some(text@),
        None => decoded(bytes) is None,
    }
}

/// The display text that the engine encoded into `bytes` as UTF-8. There is a
/// text exactly when the bytes are valid UTF-8, and it is the text that they
/// encode.
pub fn display_text(bytes: &[u8]) -> (text: Option<String>)
    ensures
        converts_to(bytes@, text),
{
    match core::str::from_utf8(bytes) {
        Ok(text) => {
            proof {
                encode_utf8_decode_utf8(text@);
            }
            Some(text.to_owned())
        },
        Err(_) => None,
    }
}

/// Conversion is repeatable: two conversions of the same bytes both yield a
/// text or both yield none, and two texts are the same text.
pub proof fn law_conversion_is_repeatable(
    bytes: Seq<u8>,
    first: Option<String>,
    second: Option<String>,
)
    requires
        converts_to(bytes, first),
        converts_to(bytes, second),
    ensures
        first is Some <==> second is Some,
        first is Some ==> first->0@ == second->0@,
{
}

/// The line that a single run prints once its script has been evaluated:
/// the display text of the final value; nothing for a script without a value;
/// and for a script that failed, the failure in place of any output.
pub fn final_output(outcome: Result<ScriptValue, ()>) -> (output: Result<
    Option<String>,
    ScriptError,
>)
    ensures
        match outcome {
            Ok(ScriptValue::Text(text)) => output matches Ok(Some(line)) && line@ == text@,
            Ok(ScriptValue::Undefined) => output == Ok::<Option<String>, ScriptError>(None),
            Err(_) => output == Err::<Option<String>, ScriptError>(ScriptError::EvaluationFailed),
        },
{
    match outcome {
        Ok(ScriptValue::Text(text)) => Ok(Some(text)),
        Ok(ScriptValue::Undefined) => Ok(None),
        Err(_) => Err(ScriptError::EvaluationFailed),
    }
}

} // verus!
