//! What is handed to the sandbox for one run.

use vstd::prelude::*;
use vstd::slice::slice_to_vec;
use vstd::string::StringSliceAdditionalSpecFns;

verus! {

/// Seconds that a run may take before it is cut off.
pub const TIMEOUT_SECS: u64 = 5;

/// The mathematical value of a [`LaunchRequest`].
pub struct LaunchRequestView {
    pub command: Seq<char>,
    pub profile: Seq<char>,
    pub input: Seq<u8>,
    pub timeout_secs: u64,
}

/// One run to be made: the entry point to invoke, the isolation profile to
/// instantiate, the bytes to feed to the process, and the time it may take.
#[derive(Debug)]
pub struct LaunchRequest {
    pub command: String,
    pub profile: String,
    pub input: Vec<u8>,
    pub timeout_secs: u64,
}

impl View for LaunchRequest {
    type V = LaunchRequestView;

    open spec fn view(&self) -> LaunchRequestView {
        LaunchRequestView {
            command: self.command@,
            profile: self.profile@,
            input: self.input@,
            timeout_secs: self.timeout_secs,
        }
    }
}

/// The request that a `(command, input)` pair stands for: the command as
/// given, the one isolation profile `l4t-playpen`, the input as its UTF-8
/// bytes, and the fixed time limit.
pub open spec fn launch_request(command: Seq<char>, input: Seq<char>) -> LaunchRequestView {
    LaunchRequestView {
        command: command,
        profile: "l4t-playpen"@,
        input: vstd::utf8::encode_utf8(input),
        timeout_secs: TIMEOUT_SECS,
    }
}

impl LaunchRequest {
    /// Builds the request for running `input` through `command`.
    pub fn new(command: &str, input: &str) -> (request: LaunchRequest)
        ensures
            request@ == launch_request(command@, input@),
    {
        LaunchRequest {
            command: command.to_owned(),
            profile: "l4t-playpen".to_owned(),
            input: slice_to_vec(input.as_bytes()),
            timeout_secs: TIMEOUT_SECS,
        }
    }
}

} // verus!
