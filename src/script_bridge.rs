//! Decisions of the bridge between the script environment and the host:
//! which native function a script call names, and which process messages
//! carry a payload for the script side.
use vstd::prelude::*;

verus! {

/// Name of the process message that carries host-to-script payloads.
pub open spec fn response_message_name() -> Seq<char> {
    "editorResponseToJs"@
}

/// Name of the script function that sends a message to the host.
pub open spec fn send_function_name() -> Seq<char> {
    "sendMessageToCef"@
}

/// Name of the script function that waits for the next host payload.
pub open spec fn read_function_name() -> Seq<char> {
    "readMessageData"@
}

/// Which native function a script call names.
#[derive(Clone, Copy, PartialEq, Eq, Structural, Debug)]
pub enum ScriptCall {
    SendMessage,
    ReadMessage,
    Unknown,
}

fn same_text(a: &str, b: &str) -> (r: bool)
    ensures
        r == (a@ == b@),
{
    let a = a.to_owned();
    let b = b.to_owned();
    a == b
}

/// The native function named by a script call.
pub fn script_call(name: &str) -> (c: ScriptCall)
    ensures
        c == (if name@ == send_function_name() {
            ScriptCall::SendMessage
        } else if name@ == read_function_name() {
            ScriptCall::ReadMessage
        } else {
            ScriptCall::Unknown
        }),
{
    proof {
        reveal_strlit("sendMessageToCef");
        reveal_strlit("readMessageData");
    }
    if same_text(name, "sendMessageToCef") {
        ScriptCall::SendMessage
    } else if same_text(name, "readMessageData") {
        ScriptCall::ReadMessage
    } else {
        ScriptCall::Unknown
    }
}

/// Whether a process message named `name` carries a payload for the script
/// side.
pub fn is_response_message(name: &str) -> (r: bool)
    ensures
        r == (name@ == response_message_name()),
{
    proof {
        reveal_strlit("editorResponseToJs");
    }
    same_text(name, "editorResponseToJs")
}

/// The payload to hand to the script side for a process message named
/// `name` whose binary argument is `payload`: the payload where the name is
/// the response name, nothing otherwise, whatever the argument holds.
pub fn accept_process_message(name: &str, payload: Option<Vec<u8>>) -> (r: Option<Vec<u8>>)
    ensures
        r == (if name@ == response_message_name() {
            payload
        } else {
            None
        }),
{
    if is_response_message(name) {
        payload
    } else {
        None
    }
}

} // verus!
