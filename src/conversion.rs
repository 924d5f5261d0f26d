use vstd::prelude::*;

use crate::json::{is_json_object_text, parse_object};
use crate::options::{ConversionOptions, GrammarVersion};

verus! {

/// Why a conversion failed.
#[derive(Clone, Debug, PartialEq, Eq)]
pub enum ConversionError {
    /// The specification text is not one JSON object. Nothing was rendered.
    MalformedInput,
    /// The engine could not render the specification; it carries the engine's
    /// message when the engine gave one.
    RenderFailure(Option<String>),
}

/// The reason that a host is given for every failure.
pub open spec fn failure_reason() -> Seq<char> {
    "invalid spec"@
}

impl ConversionError {
    /// The short, human-readable reason reported for this failure.
    pub fn reason(&self) -> (r: String)
        ensures
            r@ == failure_reason(),
    {
        "invalid spec".to_owned()
    }
}

/// What the rendering engine is asked to do: render `spec`, read against
/// `vl_version`, with a renderer made for this request alone.
#[derive(Debug)]
pub struct RenderRequest {
    /// The parsed specification; its top level is an object.
    pub spec: serde_json::Value,
    /// The grammar revision that the renderer is made for.
    pub vl_version: GrammarVersion,
}

/// Checks the specification text and fixes what the engine is asked for.
///
/// A text that is not one JSON object is refused with `MalformedInput`, and no
/// rendering is to be done for it; any other text gives a request for the
/// grammar revision of `options`.
pub fn prepare(spec: &str, options: &ConversionOptions) -> (r: Result<RenderRequest, ConversionError>)
    ensures
        r is Ok <==> is_json_object_text(spec@),
        r matches Ok(request) ==> request.vl_version == options.vl_version,
        r is Err ==> r == Err::<RenderRequest, ConversionError>(ConversionError::MalformedInput),
{
    match parse_object(spec) {
        Ok(value) => Ok(RenderRequest { spec: value, vl_version: options.vl_version }),
        Err(_) => Err(ConversionError::MalformedInput),
    }
}

/// The result of a conversion whose engine answered `outcome`: its SVG text on
/// success, its message on failure.
///
/// The SVG text is passed on as it is. An empty rendering is no success, and an
/// empty message is no message.
pub open spec fn finished(outcome: Result<String, String>) -> Result<String, ConversionError> {
    match outcome {
        Ok(svg) => if svg@.len() > 0 {
            Ok(svg)
        } else {
            Err(ConversionError::RenderFailure(None))
        },
        Err(message) => Err(
            ConversionError::RenderFailure(
                if message@.len() > 0 {
                    Some(message)
                } else {
                    None
                },
            ),
        ),
    }
}

/// Maps what the engine answered to the result of the conversion.
pub fn finish(outcome: Result<String, String>) -> (r: Result<String, ConversionError>)
    ensures
        r == finished(outcome),
{
    match outcome {
        Ok(svg) => {
            if svg.as_str().is_empty() {
                Err(ConversionError::RenderFailure(None))
            } else {
                Ok(svg)
            }
        },
        Err(message) => {
            if message.as_str().is_empty() {
                Err(ConversionError::RenderFailure(None))
            } else {
                Err(ConversionError::RenderFailure(Some(message)))
            }
        },
    }
}

} // verus!

verus! {

/// The result of converting the specification text `text` when the engine, asked
/// to render what `text` parses to, answers `engine`.
pub open spec fn converted(text: Seq<char>, engine: Result<String, String>) -> Result<
    String,
    ConversionError,
> {
    if is_json_object_text(text) {
        finished(engine)
    } else {
        Err(ConversionError::MalformedInput)
    }
}

/// A conversion fails with `MalformedInput` exactly when the text is not one JSON
/// object, whatever the engine would answer: such a text never yields a
/// `RenderFailure`, and a readable one never yields `MalformedInput`.
pub proof fn lemma_malformed_input_is_decided_by_text(
    text: Seq<char>,
    engine: Result<String, String>,
)
    ensures
        !is_json_object_text(text) ==> converted(text, engine) == Err::<String, ConversionError>(
            ConversionError::MalformedInput,
        ),
        is_json_object_text(text) ==> !(converted(text, engine) matches Err(
            ConversionError::MalformedInput,
        )),
{
}

/// Every successful conversion carries non-empty text, and that text is exactly
/// the engine's own answer for this conversion; a readable specification that the
/// engine renders to non-empty text succeeds with that text.
pub proof fn lemma_success_is_own_rendering(text: Seq<char>, engine: Result<String, String>)
    ensures
        converted(text, engine) matches Ok(svg) ==> svg@.len() > 0 && engine == Ok::<
            String,
            String,
        >(svg),
        engine matches Ok(svg) ==> (is_json_object_text(text) && svg@.len() > 0 ==> converted(
            text,
            engine,
        ) == Ok::<String, ConversionError>(svg)),
{
}

} // verus!
