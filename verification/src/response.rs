//! What a request is run with and what is sent back for it.

use rustc_serialize::json;
use vstd::prelude::*;

verus! {

/// The two things a caller can ask for.
#[derive(Clone, Copy, Debug, PartialEq, Eq, Structural)]
pub enum Endpoint {
    /// Run the code and show what it prints.
    Evaluate,
    /// Compile the code and show what the compiler emits.
    Compile,
}

impl Endpoint {
    /// The path of the script that serves the endpoint.
    pub open spec fn command_text(self) -> Seq<char> {
        match self {
            Endpoint::Evaluate => "/usr/local/bin/evaluate.sh"@,
            Endpoint::Compile => "/usr/local/bin/compile.sh"@,
        }
    }

    /// The path of the script that serves the endpoint.
    pub fn command(&self) -> (path: &'static str)
        ensures
            path@ == self.command_text(),
    {
        match self {
            Endpoint::Evaluate => "/usr/local/bin/evaluate.sh",
            Endpoint::Compile => "/usr/local/bin/compile.sh",
        }
    }
}

/// The text that `String::from_utf8_lossy` makes of `bytes`: the text they
/// encode, with the replacement character in place of what is not UTF-8.
pub uninterp spec fn lossy_text(bytes: Seq<u8>) -> Seq<char>;

/// The compact JSON text that `rustc_serialize` writes for an object with
/// the one member `key`, whose value is the string `value`.
pub uninterp spec fn object_text(key: Seq<char>, value: Seq<char>) -> Seq<char>;

/// `String::from_utf8_lossy`: the text depends on the bytes alone.
#[verifier::external_body]
fn decode_lossy(bytes: &[u8]) -> (text: String)
    ensures
        text@ == lossy_text(bytes@),
{
    String::from_utf8_lossy(bytes).into_owned()
}

/// `rustc_serialize::json::Json`, formatted with `{}`: an object of one
/// string member is written the same way for the same key and value.
#[verifier::external_body]
fn encode_object(key: String, value: String) -> (text: String)
    ensures
        text@ == object_text(key@, value@),
{
    let mut object = json::Object::new();
    object.insert(key, json::Json::String(value));
    format!("{}", json::Json::Object(object))
}

/// The body sent back for a run: a JSON object whose member `result` holds
/// the output of the run, decoded leniently. This is the one place where
/// output bytes become text.
pub fn render(output: &[u8]) -> (body: String)
    ensures
        body@ == object_text("result"@, lossy_text(output@)),
{
    let text = decode_lossy(output);
    encode_object("result".to_owned(), text)
}

} // verus!
