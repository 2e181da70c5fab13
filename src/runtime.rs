//! The runtime configuration and the decisions taken when it starts and when the
//! native runtime dispatches an invocation.
//!
//! The native calls themselves (registering the callback, starting the event loop,
//! reading a message) and the worker thread are made by the program around the
//! library; what they do next is decided here.

use vstd::prelude::*;
use vstd::utf8::{decode_utf8, valid_utf8};
use crate::channel::ChannelHolder;
use crate::error::GGError;
use crate::handler::{Handler, LambdaContext};
use crossbeam_channel::SendError;

verus! {

/// The native option that starts the event loop on a thread of its own.
pub const GG_RT_OPT_ASYNC: u32 = 1;
/// The native option that runs the event loop on the calling thread.
pub const GG_RT_OPT_SYNC: u32 = 0;

/// How the native event loop is started.
#[derive(Debug, PartialEq, Eq, Structural, Clone, Copy)]
pub enum RuntimeOption {
    /// The loop runs on the calling thread, which it keeps until the native
    /// runtime exits. This suits on-demand functions, and is the default.
    Sync,
    /// The loop runs on a thread of its own and the caller goes on; the loop
    /// ends when the process does. This suits long-lived functions.
    Async,
}

impl RuntimeOption {
    pub open spec fn opt_spec(&self) -> u32 {
        match self {
            RuntimeOption::Sync => GG_RT_OPT_SYNC,
            RuntimeOption::Async => GG_RT_OPT_ASYNC,
        }
    }

    /// The option flag that the native start call takes.
    pub fn as_opt(&self) -> (r: u32)
        ensures
            r == self.opt_spec(),
    {
        match self {
            RuntimeOption::Sync => GG_RT_OPT_SYNC,
            RuntimeOption::Async => GG_RT_OPT_ASYNC,
        }
    }
}

/// Which callback is registered with the native runtime.
#[derive(Debug, PartialEq, Eq, Structural, Clone, Copy)]
pub enum CallbackKind {
    /// Builds a context for each invocation and queues it for the worker.
    Delegating,
    /// Only notes that it was called.
    NoOp,
}

/// What starting a runtime does: whether a worker thread serves the handler,
/// which callback is registered, and the option flag of the native start call.
#[derive(Debug, PartialEq, Eq, Structural, Clone, Copy)]
pub struct StartPlan {
    pub spawn_worker: bool,
    pub callback: CallbackKind,
    pub option: u32,
}

/// Configures the Greengrass core runtime: how it starts and which handler, if
/// any, serves its invocations.
pub struct Runtime {
    runtime_option: RuntimeOption,
    handler: Option<Box<dyn Handler>>,
}

impl Default for Runtime {
    fn default() -> (r: Self)
        ensures
            r.option() == RuntimeOption::Sync,
            !r.has_handler(),
    {
        Runtime { runtime_option: RuntimeOption::Sync, handler: None }
    }
}

impl Runtime {
    pub closed spec fn option(&self) -> RuntimeOption {
        self.runtime_option
    }

    pub closed spec fn handler(&self) -> Option<Box<dyn Handler>> {
        self.handler
    }

    pub open spec fn has_handler(&self) -> bool {
        self.handler() is Some
    }

    /// The same runtime, started with the given option.
    pub fn with_runtime_option(self, runtime_option: RuntimeOption) -> (r: Self)
        ensures
            r.option() == runtime_option,
            r.handler() == self.handler(),
    {
        Runtime { runtime_option, ..self }
    }

    /// The same runtime with the given handler, or with none: then a no-op
    /// callback is registered.
    pub fn with_handler(self, handler: Option<Box<dyn Handler>>) -> (r: Self)
        ensures
            r.option() == self.option(),
            r.handler() == handler,
    {
        Runtime { handler, ..self }
    }

    /// What starting this runtime does.
    pub fn start_plan(&self) -> (r: StartPlan)
        ensures
            r.spawn_worker == self.has_handler(),
            r.callback == (if self.has_handler() {
                CallbackKind::Delegating
            } else {
                CallbackKind::NoOp
            }),
            r.option == self.option().opt_spec(),
    {
        let spawn_worker = self.handler.is_some();
        let callback = if spawn_worker {
            CallbackKind::Delegating
        } else {
            CallbackKind::NoOp
        };
        StartPlan { spawn_worker, callback, option: self.runtime_option.as_opt() }
    }

    /// The handler, taken out to run on the worker thread.
    pub fn into_handler(self) -> (r: Option<Box<dyn Handler>>)
        ensures
            r == self.handler(),
    {
        self.handler
    }
}

/// What `String::from_utf8_lossy` makes of some bytes.
pub uninterp spec fn lossy_text(b: Seq<u8>) -> Seq<char>;

/// Relies on std's `String::from_utf8_lossy`: valid UTF-8 is decoded as it is,
/// and each invalid sequence becomes U+FFFD.
#[verifier::external_body]
fn lossy_string(b: &[u8]) -> (r: String)
    ensures
        r@ == lossy_text(b@),
        valid_utf8(b@) ==> r@ == decode_utf8(b@),
{
    String::from_utf8_lossy(b).into_owned()
}

/// The context of one invocation, from the two texts of the native context and
/// the message read for it. Text that is not valid UTF-8 is decoded lossily.
pub fn build_context(function_arn: &[u8], client_context: &[u8], message: Vec<u8>) -> (r:
    LambdaContext)
    ensures
        r.function_arn@ == lossy_text(function_arn@),
        r.client_context@ == lossy_text(client_context@),
        valid_utf8(function_arn@) ==> r.function_arn@ == decode_utf8(function_arn@),
        valid_utf8(client_context@) ==> r.client_context@ == decode_utf8(client_context@),
        r.message@ == message@,
{
    let function_arn = lossy_string(function_arn);
    let client_context = lossy_string(client_context);
    LambdaContext::new(function_arn, client_context, message)
}

/// What the delegating callback does with one invocation: once its message has
/// been read, the context is built and queued for the worker. A failed read is
/// returned as it is, and nothing is queued; the callback reports any error
/// and returns normally to the native runtime.
pub fn deliver(
    channel: &ChannelHolder,
    function_arn: &[u8],
    client_context: &[u8],
    message: Result<Vec<u8>, GGError>,
) -> (r: Result<(), GGError>)
    ensures
        match message {
            Err(e) => r == Err::<(), GGError>(e),
            Ok(m) => r is Ok || (r matches Err(GGError::HandlerChannelSendError(SendError(ctx)))
                && ctx.function_arn@ == lossy_text(function_arn@)
                && ctx.client_context@ == lossy_text(client_context@) && ctx.message@ == m@),
        },
{
    match message {
        Err(e) => Err(e),
        Ok(m) => {
            let context = build_context(function_arn, client_context, m);
            channel.send(context)
        },
    }
}

} // verus!
