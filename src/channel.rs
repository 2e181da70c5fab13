//! The queue that carries invocations from the native callback thread to the worker thread.

use vstd::prelude::*;
use crossbeam_channel::{Receiver, RecvError, SendError, Sender};
use std::sync::Arc;
use crate::error::GGError;
use crate::handler::{Handler, LambdaContext};

verus! {

/// crossbeam_channel's sending end, carried as an opaque value.
#[verifier::external_type_specification]
#[verifier::external_body]
#[verifier::reject_recursive_types(T)]
pub struct ExSender<T>(Sender<T>);

/// crossbeam_channel's receiving end, carried as an opaque value.
#[verifier::external_type_specification]
#[verifier::external_body]
#[verifier::reject_recursive_types(T)]
pub struct ExReceiver<T>(Receiver<T>);

/// crossbeam_channel's `SendError<T>(pub T)`: its one public field is the
/// message that could not be sent, so its contents are visible.
#[verifier::external_type_specification]
#[verifier::reject_recursive_types(T)]
pub struct ExSendError<T>(SendError<T>);

/// crossbeam_channel's `RecvError`, a struct with no fields.
#[verifier::external_type_specification]
pub struct ExRecvError(RecvError);

/// Relies on crossbeam_channel::unbounded: a new channel of unbounded capacity,
/// its sending end and its receiving end.
pub assume_specification<T>[ crossbeam_channel::unbounded::<T> ]() -> (Sender<T>, Receiver<T>);

/// Relies on crossbeam_channel::Sender::send: a send that fails hands the
/// message back in its error.
pub assume_specification<T>[ Sender::<T>::send ](s: &Sender<T>, msg: T) -> (r: Result<
    (),
    SendError<T>,
>)
    ensures
        r matches Err(e) ==> e.0 == msg,
;

/// Relies on crossbeam_channel::Receiver::recv: blocks until a message comes,
/// or fails once every sender is gone.
pub assume_specification<T>[ Receiver::<T>::recv ](r: &Receiver<T>) -> Result<T, RecvError>;

/// Both ends of one unbounded channel of invocations.
pub struct ChannelHolder {
    sender: Sender<LambdaContext>,
    receiver: Receiver<LambdaContext>,
}

impl ChannelHolder {
    /// A new, empty channel, shareable between threads.
    pub fn new() -> Arc<Self> {
        let (sender, receiver) = crossbeam_channel::unbounded();
        let holder = ChannelHolder { sender, receiver };
        Arc::new(holder)
    }

    /// Queues a context for the worker. The one failure is a channel whose
    /// receiving side is gone, which hands the context back inside the error.
    pub fn send(&self, context: LambdaContext) -> (r: Result<(), GGError>)
        ensures
            r is Ok || r == Err::<(), GGError>(
                GGError::HandlerChannelSendError(SendError(context)),
            ),
    {
        match self.sender.send(context) {
            Ok(()) => Ok(()),
            Err(e) => Err(GGError::from(e)),
        }
    }

    /// Waits for the next queued context. The one failure is a channel whose
    /// sending side is gone.
    pub fn recv(&self) -> (r: Result<LambdaContext, GGError>)
        ensures
            r matches Err(e) ==> e == GGError::HandlerChannelRecvError(RecvError),
    {
        match self.receiver.recv() {
            Ok(context) => Ok(context),
            Err(e) => Err(GGError::from(e)),
        }
    }

    /// One turn of the worker: waits for the next context and hands it to the
    /// handler. It fails only when the channel is closed, and the worker then stops.
    pub fn serve_one(&self, handler: &dyn Handler) -> (r: Result<(), GGError>)
        ensures
            r matches Err(e) ==> e == GGError::HandlerChannelRecvError(RecvError),
    {
        let context = self.recv()?;
        handler.handle(context);
        Ok(())
    }
}

} // verus!
