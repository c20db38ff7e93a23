use vstd::prelude::*;
use vstd::string::StringExecFns;
use crate::context::CallContext;

verus! {

/// serde_json's document type, declared so that it can stand in signatures.
/// It is opaque here: the decoder hands the parsed document through to the
/// subsystem handlers untouched.
#[verifier::external_type_specification]
#[verifier::external_body]
pub struct ExJsonValue(serde_json::Value);

/// What `serde_json::from_str::<serde_json::Value>` makes of a given text:
/// the parsed document, or the diagnostic text of the parse error. Parsing
/// is a function of the text alone, so its outcome has a name here; nothing
/// in this crate states which texts parse.
pub uninterp spec fn json_parse(text: Seq<char>) -> Result<serde_json::Value, Seq<char>>;

/// Relies on `serde_json::from_str::<serde_json::Value>`: the outcome
/// depends on the input text alone, and the error's `to_string` is the
/// parser's human-readable diagnostic.
#[verifier::external_body]
fn parse_json_text(text: &str) -> (r: Result<serde_json::Value, String>)
    ensures
        match r {
            Ok(v) => json_parse(text@) == Ok::<serde_json::Value, Seq<char>>(v),
            Err(m) => json_parse(text@) == Err::<serde_json::Value, Seq<char>>(m@),
        },
{
    serde_json::from_str::<serde_json::Value>(text).map_err(|e| e.to_string())
}

/// Why one decode failed: the argument was never there to decode, or its
/// text did not parse as a JSON document.
#[derive(Debug)]
pub enum DecodeError {
    /// The argument was absent, or present without a textual payload.
    Missing { name: String },
    /// The payload was text but failed to parse; `cause` is the parser's
    /// diagnostic.
    Malformed { cause: String },
}

/// The boundary's message text for an absent argument.
pub open spec fn missing_message(name: Seq<char>) -> Seq<char> {
    name + " must be provided"@
}

impl DecodeError {
    /// The message text this error renders to at the boundary.
    pub open spec fn message_view(self) -> Seq<char> {
        match self {
            DecodeError::Missing { name } => missing_message(name@),
            DecodeError::Malformed { cause } => cause@,
        }
    }

    /// Render the error as the boundary's message string.
    pub fn message(&self) -> (m: String)
        ensures
            m@ == self.message_view(),
    {
        match self {
            DecodeError::Missing { name } => {
                let mut m = name.clone();
                m.append(" must be provided");
                m
            },
            DecodeError::Malformed { cause } => cause.clone(),
        }
    }
}

/// Decode the argument at `index` of one host call into a JSON document,
/// reporting the failure as a tagged error: `Missing` when the position
/// holds no text (absent, past the end, or non-textual), `Malformed` with
/// the parser's diagnostic when the text does not parse.
pub fn decode_argument(ctx: &CallContext, index: usize, name: &str) -> (r: Result<
    serde_json::Value,
    DecodeError,
>)
    ensures
        match ctx.arg_payload(index as int) {
            None => r matches Err(DecodeError::Missing { name: n }) && n@ == name@,
            Some(text) => match json_parse(text) {
                Ok(v) => r == Ok::<serde_json::Value, DecodeError>(v),
                Err(d) => r matches Err(DecodeError::Malformed { cause }) && cause@ == d,
            },
        },
{
    match ctx.argument_payload(index) {
        None => Err(DecodeError::Missing { name: name.to_owned() }),
        Some(text) => match parse_json_text(text.as_str()) {
            Ok(v) => Ok(v),
            Err(cause) => Err(DecodeError::Malformed { cause }),
        },
    }
}

/// Decode the argument at `arg_index` of one host call into a JSON
/// document, with the failure rendered as the boundary's message string:
/// exactly `"<arg_name> must be provided"` when the position holds no text,
/// and the parser's diagnostic when the text does not parse.
pub fn parse_json_argument(ctx: &CallContext, arg_index: usize, arg_name: &str) -> (r: Result<
    serde_json::Value,
    String,
>)
    ensures
        match ctx.arg_payload(arg_index as int) {
            None => r matches Err(m) && m@ == missing_message(arg_name@),
            Some(text) => match json_parse(text) {
                Ok(v) => r == Ok::<serde_json::Value, String>(v),
                Err(d) => r matches Err(m) && m@ == d,
            },
        },
{
    match decode_argument(ctx, arg_index, arg_name) {
        Ok(v) => Ok(v),
        Err(e) => Err(e.message()),
    }
}

} // verus!
