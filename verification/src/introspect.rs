//! Telling other programs about the open windows.

use vstd::prelude::*;
use std::collections::HashMap;

verus! {

/// What the service asks the compositor.
#[derive(Debug, Clone, Copy, PartialEq, Eq, Structural)]
pub enum IntrospectToNaru {
    GetWindows,
}

/// What the compositor answers.
#[derive(Debug)]
pub enum NaruToIntrospect {
    /// The open windows, by their ids.
    Windows(HashMap<u64, WindowProperties>),
}

/// What is told about a window.
#[derive(Debug)]
pub struct WindowProperties {
    pub title: String,
    pub app_id: String,
}

/// Why a call was not answered.
#[derive(Debug, Clone, Copy, PartialEq, Eq, Structural)]
pub enum IntrospectError {
    /// The compositor is gone.
    Internal,
}

/// What the service does next.
#[derive(Debug, Clone, Copy, PartialEq, Eq, Structural)]
pub enum IntrospectStep {
    /// Wait for the answer of the compositor.
    Receive,
    /// Answer the call with this error.
    Fail(IntrospectError),
}

/// The question that a call for the windows puts to the compositor.
pub fn get_windows() -> (r: IntrospectToNaru)
    ensures
        r is GetWindows,
{
    IntrospectToNaru::GetWindows
}

/// How a call goes on once the question was put to the compositor, or could not be.
pub open spec fn step_after_send(sent: bool) -> IntrospectStep {
    if sent {
        IntrospectStep::Receive
    } else {
        IntrospectStep::Fail(IntrospectError::Internal)
    }
}

/// Goes on once the question was put to the compositor, or could not be.
pub fn after_send(sent: bool) -> (r: IntrospectStep)
    ensures
        r == step_after_send(sent),
{
    if sent {
        IntrospectStep::Receive
    } else {
        IntrospectStep::Fail(IntrospectError::Internal)
    }
}

/// The answer to a call for the windows; `None` stands for a compositor that
/// did not reply.
pub fn after_receive(reply: Option<NaruToIntrospect>) -> (r: Result<
    HashMap<u64, WindowProperties>,
    IntrospectError,
>)
    ensures
        match reply {
            Some(NaruToIntrospect::Windows(windows)) => r == Ok::<_, IntrospectError>(windows),
            None => r is Err && r->Err_0 is Internal,
        },
{
    match reply {
        Some(NaruToIntrospect::Windows(windows)) => Ok(windows),
        None => Err(IntrospectError::Internal),
    }
}

/// A call waits for the reply exactly if the question could be put, and fails otherwise.
pub proof fn calls_wait_for_what_was_asked(sent: bool)
    ensures
        step_after_send(sent) is Receive <==> sent,
        step_after_send(sent) is Fail <==> !sent,
        step_after_send(sent) matches IntrospectStep::Fail(err) ==> err is Internal,
{
}

} // verus!
