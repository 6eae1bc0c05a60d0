//! The consumer's state machine and the producer's one-shot handle.
use crate::payload::Payload;
use crate::transport::send;
use futures::Async;
use ipc_channel::ipc::{channel, IpcReceiver, IpcSender};
use ipc_channel::{IpcError, TryRecvError};
use serde::{Deserialize, Serialize};
use vstd::prelude::*;

verus! {

/// The producer's side: the only way to complete the paired future.
/// Providing consumes the handle, so a value can be provided at most once.
#[verifier::reject_recursive_types(T)]
pub struct IpcFutureData<T> {
    inner: IpcSender<T>,
}

impl<T> IpcFutureData<T> where T: Serialize + Payload {
    /// Sends the value to the paired future and closes this side. A value
    /// may carry at most 63 channel endpoints. Failure is the transport's: a
    /// serialization or operating system error, never a disconnection.
    pub fn provide(self, value: T) -> (r: Result<(), IpcError>)
        requires
            value.handle_count() < 64,
        ensures
            r matches Err(e) ==> !(e is Disconnected),
    {
        send(&self.inner, value)
    }
}

/// A value arriving over an inter-process channel.
#[verifier::reject_recursive_types(T)]
pub enum IpcFuture<T> {
    /// Nothing has arrived yet; holds the receiving end of the channel.
    Waiting(IpcReceiver<T>),
    /// The value has arrived and waits to be taken by `poll`.
    Ready(T),
    /// The value has been taken.
    Empty,
}

/// The result of a readiness check that finds the value has arrived.
pub open spec fn check_passed<E>() -> Result<Async<()>, E> {
    Ok(Async::Ready(()))
}

/// The result of a check or an extraction that finds nothing yet.
pub open spec fn not_ready<U, E>() -> Result<Async<U>, E> {
    Ok(Async::NotReady)
}

/// Whether a poll result hands the value out.
pub open spec fn delivers<T, E>(r: Result<Async<T>, E>) -> bool {
    r matches Ok(Async::Ready(_))
}

/// How a waiting future and its readiness check's result follow from what a
/// non-blocking receive brought: a value makes it ready, an empty channel
/// leaves it waiting, and a transport error is passed on with the state kept.
pub open spec fn receive_step<T>(
    before: IpcFuture<T>,
    received: Result<T, TryRecvError>,
    after: IpcFuture<T>,
    r: Result<Async<()>, IpcError>,
) -> bool {
    match received {
        Ok(v) => after == IpcFuture::Ready(v) && r == check_passed::<IpcError>(),
        Err(TryRecvError::Empty) => after == before && r == not_ready::<(), IpcError>(),
        Err(TryRecvError::IpcError(e)) => after == before && r == Err::<Async<()>, IpcError>(e),
    }
}

/// The readiness check: a waiting future takes one receive step for some
/// outcome of the receive; any other state is left alone and reported
/// checked.
pub open spec fn check_step<T>(
    before: IpcFuture<T>,
    after: IpcFuture<T>,
    r: Result<Async<()>, IpcError>,
) -> bool {
    match before {
        IpcFuture::Waiting(_) => exists|received: Result<T, TryRecvError>|
            #[trigger] receive_step(before, received, after, r),
        _ => after == before && r == check_passed::<IpcError>(),
    }
}

/// One extraction from a waiting future, given what the receive brought: a
/// value is handed out at once and the future is spent; otherwise as in
/// `receive_step`.
pub open spec fn extract_received<T>(
    before: IpcFuture<T>,
    received: Result<T, TryRecvError>,
    after: IpcFuture<T>,
    r: Result<Async<T>, IpcError>,
) -> bool {
    match received {
        Ok(v) => after == IpcFuture::<T>::Empty && r == Ok::<Async<T>, IpcError>(Async::Ready(v)),
        Err(TryRecvError::Empty) => after == before && r == not_ready::<T, IpcError>(),
        Err(TryRecvError::IpcError(e)) => after == before && r == Err::<Async<T>, IpcError>(e),
    }
}

/// One extraction: a ready future hands out its value and is spent; a
/// waiting one takes one extraction step for some outcome of the receive; a
/// spent one admits none.
pub open spec fn poll_step<T>(
    before: IpcFuture<T>,
    after: IpcFuture<T>,
    r: Result<Async<T>, IpcError>,
) -> bool {
    match before {
        IpcFuture::Waiting(_) => exists|received: Result<T, TryRecvError>|
            #[trigger] extract_received(before, received, after, r),
        IpcFuture::Ready(v) => after == IpcFuture::<T>::Empty && r == Ok::<Async<T>, IpcError>(Async::Ready(v)),
        IpcFuture::Empty => false,
    }
}

impl<T> IpcFuture<T> {
    /// The value held, once it has arrived and until it is taken.
    pub open spec fn held(self) -> Option<T> {
        match self {
            IpcFuture::Ready(v) => Some(v),
            _ => None,
        }
    }
}

impl<T> IpcFuture<T> where T: for<'de> Deserialize<'de> + Serialize {
    /// Creates a future in the waiting state, with the handle that completes it.
    pub fn new() -> (r: Result<(IpcFuture<T>, IpcFutureData<T>), std::io::Error>)
        ensures
            r matches Ok((future, _)) ==> future is Waiting,
    {
        match channel() {
            Ok((sender, receiver)) => Ok((IpcFuture::Waiting(receiver), IpcFutureData { inner: sender })),
            Err(error) => Err(error),
        }
    }

    /// Applies the outcome of a non-blocking receive to a waiting future.
    pub fn record_receive(&mut self, received: Result<T, TryRecvError>) -> (r: Result<Async<()>, IpcError>)
        requires
            *old(self) is Waiting,
        ensures
            receive_step(*old(self), received, *final(self), r),
    {
        match received {
            Ok(value) => {
                *self = IpcFuture::Ready(value);
                Ok(Async::Ready(()))
            },
            Err(TryRecvError::Empty) => Ok(Async::NotReady),
            Err(TryRecvError::IpcError(error)) => Err(error),
        }
    }

    /// Checks without blocking whether the value has arrived, and stores it
    /// if so. Once the future is no longer waiting there is nothing to check
    /// and the check reports ready, whether or not a value is still held.
    pub fn poll_impl(&mut self) -> (r: Result<Async<()>, IpcError>)
        ensures
            check_step(*old(self), *final(self), r),
    {
        let received = match self {
            IpcFuture::Waiting(receiver) => receiver.try_recv(),
            _ => return Ok(Async::Ready(())),
        };
        let r = self.record_receive(received);
        assert(receive_step(*old(self), received, *self, r));
        r
    }

    /// Moves a held value out, leaving the future spent; `None` if it is
    /// already spent.
    fn take(&mut self) -> (r: Option<Async<T>>)
        ensures
            match *old(self) {
                IpcFuture::Waiting(_) => *final(self) == *old(self) && r == Some(Async::<T>::NotReady),
                IpcFuture::Ready(v) => *final(self) == IpcFuture::<T>::Empty && r == Some(Async::Ready(v)),
                IpcFuture::Empty => *final(self) == IpcFuture::<T>::Empty && r is None,
            },
    {
        let mut current = IpcFuture::Empty;
        std::mem::swap(self, &mut current);
        match current {
            IpcFuture::Waiting(receiver) => {
                *self = IpcFuture::Waiting(receiver);
                Some(Async::NotReady)
            },
            IpcFuture::Ready(value) => Some(Async::Ready(value)),
            IpcFuture::Empty => None,
        }
    }

    /// Polls for the value and hands it out once it has arrived. Polling
    /// again after the value has been handed out is a fault in the caller.
    pub fn poll(&mut self) -> (r: Result<Async<T>, IpcError>)
        requires
            !(*old(self) is Empty),
        ensures
            poll_step(*old(self), *final(self), r),
    {
        let checked = self.poll_impl();
        let ghost checked_state = *self;
        match checked {
            Err(error) => {
                proof {
                    let received = choose|x: Result<T, TryRecvError>| receive_step(*old(self), x, *self, checked);
                    assert(extract_received(*old(self), received, *self, Err::<Async<T>, IpcError>(error)));
                }
                Err(error)
            },
            Ok(_) => {
                let out = self.take().expect("data has already been consumed");
                proof {
                    if *old(self) is Waiting {
                        let received = choose|x: Result<T, TryRecvError>| receive_step(*old(self), x, checked_state, checked);
                        assert(extract_received(*old(self), received, *self, Ok::<Async<T>, IpcError>(out)));
                    }
                }
                Ok(out)
            },
        }
    }

    /// The held value, if it has arrived and has not been taken.
    pub fn as_ref(&self) -> (r: Option<&T>)
        ensures
            match r {
                Some(v) => self.held() == Some(*v),
                None => self.held() is None,
            },
    {
        match self {
            IpcFuture::Ready(value) => Some(value),
            _ => None,
        }
    }
}

} // verus!
