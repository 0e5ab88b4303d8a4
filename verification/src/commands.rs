//! The operations as a user interface invokes them: each answers with a
//! text, on success and on failure alike.

use vstd::prelude::*;
use crate::error::ErrorView;
use crate::error::ServiceError;
use crate::model::reply_view;
use crate::status::ServiceStatus;
use crate::supervisor::ServiceSupervisor;
use crate::text::SERVICE_ADDRESS;

verus! {

/// An answer of the supervisor with its failure reduced to the reason.
pub open spec fn as_text(reply: Result<Seq<char>, ErrorView>) -> Result<Seq<char>, Seq<char>> {
    match reply {
        Ok(message) => Ok(message),
        Err(error) => Err(error.reason()),
    }
}

/// An answer in text, as mathematical values.
pub open spec fn text_view(reply: Result<String, String>) -> Result<Seq<char>, Seq<char>> {
    match reply {
        Ok(message) => Ok(message@),
        Err(reason) => Err(reason@),
    }
}

/// Reduces the failure of an answer to its reason.
fn into_text(reply: Result<String, ServiceError>) -> (text: Result<String, String>)
    ensures
        text_view(text) == as_text(reply_view(reply)),
{
    match reply {
        Ok(message) => Ok(message),
        Err(error) => Err(error.into_reason()),
    }
}

/// Starts the service as [`ServiceSupervisor::start`] does, and answers
/// with the message, or with the reason of the failure.
pub fn start_service<H, L>(supervisor: &mut ServiceSupervisor<H>, launch: L) -> (reply: Result<
    String,
    String,
>) where L: FnOnce() -> Result<H, String>
    requires
        old(supervisor)@.launches() ==> call_requires(launch, ()),
    ensures
        exists|answer: Result<Seq<char>, ErrorView>|
            #![trigger old(supervisor)@.start_yields(launch, final(supervisor)@, answer)]
            old(supervisor)@.start_yields(launch, final(supervisor)@, answer) && text_view(reply)
                == as_text(answer),
        final(supervisor)@.wf(),
{
    let answer = supervisor.start(launch);
    into_text(answer)
}

/// Stops the service as [`ServiceSupervisor::stop`] does, and answers with
/// the message, or with the reason of the failure.
pub fn stop_service<H, T>(supervisor: &mut ServiceSupervisor<H>, terminate: T) -> (reply: Result<
    String,
    String,
>) where T: FnOnce(H) -> Result<(), (H, String)>
    requires
        old(supervisor)@.process matches Some(handle) ==> call_requires(terminate, (handle,)),
    ensures
        exists|answer: Result<Seq<char>, ErrorView>|
            #![trigger old(supervisor)@.stop_yields(terminate, final(supervisor)@, answer)]
            old(supervisor)@.stop_yields(terminate, final(supervisor)@, answer) && text_view(reply)
                == as_text(answer),
        final(supervisor)@.wf(),
{
    let answer = supervisor.stop(terminate);
    into_text(answer)
}

/// A copy of the current status of the service.
pub fn get_status<H>(supervisor: &ServiceSupervisor<H>) -> (status: ServiceStatus)
    ensures
        status@ == supervisor@.status,
{
    supervisor.status()
}

/// The address of the service, for the clipboard. It is the same text
/// whatever the status of the service, and the operation never fails.
pub fn copy_address() -> (reply: Result<String, String>)
    ensures
        text_view(reply) == Ok::<Seq<char>, Seq<char>>(SERVICE_ADDRESS@),
{
    Ok(SERVICE_ADDRESS.to_owned())
}

} // verus!
