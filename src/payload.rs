//! What a value sent over the channel carries besides plain data: the
//! channel endpoints embedded in it, each of which travels as one operating
//! system handle.
use ipc_channel::ipc::{IpcReceiver, IpcSender};
use vstd::prelude::*;

verus! {

/// A value that can be sent to a future, with the number of operating
/// system handles (embedded channel endpoints) that sending it transfers.
pub trait Payload {
    spec fn handle_count(&self) -> nat;
}

/// The handles carried by a sequence of values, in total.
pub open spec fn handles_in<M: Payload>(s: Seq<M>) -> nat
    decreases s.len(),
{
    if s.len() == 0 {
        0
    } else {
        handles_in(s.drop_last()) + s.last().handle_count()
    }
}

/// A sequence of values that carry no handles carries none in total.
pub proof fn lemma_handles_in_plain<M: Payload>(s: Seq<M>)
    requires
        forall|i: int| 0 <= i < s.len() ==> (#[trigger] s[i]).handle_count() == 0,
    ensures
        handles_in(s) == 0,
    decreases s.len(),
{
    if s.len() > 0 {
        lemma_handles_in_plain(s.drop_last());
        assert(s.last().handle_count() == 0);
    }
}

impl Payload for () {
    open spec fn handle_count(&self) -> nat { 0 }
}

impl Payload for bool {
    open spec fn handle_count(&self) -> nat { 0 }
}

impl Payload for char {
    open spec fn handle_count(&self) -> nat { 0 }
}

impl Payload for u8 {
    open spec fn handle_count(&self) -> nat { 0 }
}

impl Payload for u16 {
    open spec fn handle_count(&self) -> nat { 0 }
}

impl Payload for u32 {
    open spec fn handle_count(&self) -> nat { 0 }
}

impl Payload for u64 {
    open spec fn handle_count(&self) -> nat { 0 }
}

impl Payload for usize {
    open spec fn handle_count(&self) -> nat { 0 }
}

impl Payload for i8 {
    open spec fn handle_count(&self) -> nat { 0 }
}

impl Payload for i16 {
    open spec fn handle_count(&self) -> nat { 0 }
}

impl Payload for i32 {
    open spec fn handle_count(&self) -> nat { 0 }
}

impl Payload for i64 {
    open spec fn handle_count(&self) -> nat { 0 }
}

impl Payload for isize {
    open spec fn handle_count(&self) -> nat { 0 }
}

impl Payload for String {
    open spec fn handle_count(&self) -> nat { 0 }
}

impl<M: Payload> Payload for Vec<M> {
    open spec fn handle_count(&self) -> nat { handles_in(self@) }
}

impl<M: Payload> Payload for Option<M> {
    open spec fn handle_count(&self) -> nat {
        match self {
            Some(m) => m.handle_count(),
            None => 0,
        }
    }
}

impl<A: Payload, B: Payload> Payload for (A, B) {
    open spec fn handle_count(&self) -> nat { self.0.handle_count() + self.1.handle_count() }
}

impl<U> Payload for IpcSender<U> {
    open spec fn handle_count(&self) -> nat { 1 }
}

impl<U> Payload for IpcReceiver<U> {
    open spec fn handle_count(&self) -> nat { 1 }
}

} // verus!
