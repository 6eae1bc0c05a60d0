//! The inter-process channel and the poll result type, as seen by the
//! verifier: the outside types, opaque where nothing reads inside them, and
//! the few channel operations the state machine calls.
use ipc_channel::ipc::{IpcReceiver, IpcSender};
use crate::payload::Payload;
use ipc_channel::{IpcError, SerDeError, TryRecvError};
use serde::{Deserialize, Serialize};
use vstd::prelude::*;

verus! {

#[verifier::external_type_specification]
#[verifier::external_body]
#[verifier::reject_recursive_types(T)]
pub struct ExIpcSender<T>(IpcSender<T>);

#[verifier::external_type_specification]
#[verifier::external_body]
#[verifier::reject_recursive_types(T)]
pub struct ExIpcReceiver<T>(IpcReceiver<T>);

/// Transport errors: their variants are read in contracts, so the
/// declaration is not opaque.
#[verifier::external_type_specification]
pub struct ExIpcError(IpcError);

#[verifier::external_type_specification]
#[verifier::external_body]
pub struct ExSerDeError(SerDeError);

/// The outcome of a non-blocking receive: its variants are read by verified
/// code, so the declaration is not opaque.
#[verifier::external_type_specification]
pub struct ExTryRecvError(TryRecvError);

#[verifier::external_type_specification]
#[verifier::external_body]
pub struct ExIoError(std::io::Error);

#[verifier::external_type_specification]
#[verifier::reject_recursive_types(T)]
pub struct ExAsync<T>(futures::Async<T>);

/// Relies on ipc_channel::ipc::channel: a fresh connected pair, or the
/// operating system's error; nothing is promised about which.
pub assume_specification<T>[ ipc_channel::ipc::channel::<T> ]() -> (r: Result<(IpcSender<T>, IpcReceiver<T>), std::io::Error>)
    where
        T: for<'de> Deserialize<'de> + Serialize,
;

/// Relies on IpcSender::send. It asserts that at most 64 handles go with
/// the first fragment of a message, and a message sent in fragments adds one
/// handle of its own, so the value may carry at most 63. Its errors come from
/// serialization or from the operating system, never from a disconnection.
/// The handle count is the one `Payload` gives: one per channel endpoint
/// that the value embeds.
#[verifier::external_body]
pub(crate) fn send<T: Serialize + Payload>(sender: &IpcSender<T>, data: T) -> (r: Result<(), IpcError>)
    requires
        data.handle_count() < 64,
    ensures
        r matches Err(e) ==> !(e is Disconnected),
{
    sender.send(data)
}

/// Relies on IpcReceiver::try_recv: a value, `Empty` when nothing has
/// arrived yet, or a transport error; which one depends on the other side.
pub assume_specification<T>[ IpcReceiver::<T>::try_recv ](receiver: &IpcReceiver<T>) -> (r: Result<T, TryRecvError>)
    where
        T: for<'de> Deserialize<'de> + Serialize,
;

} // verus!
