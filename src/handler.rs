//! The unit of work handed to the application, and the capability that processes it.

use vstd::prelude::*;

verus! {

/// One dispatched invocation: who was invoked, with what client context, and the payload.
#[derive(Debug, Clone)]
pub struct LambdaContext {
    pub function_arn: String,
    pub client_context: String,
    pub message: Vec<u8>,
}

impl LambdaContext {
    pub fn new(function_arn: String, client_context: String, message: Vec<u8>) -> (r: Self)
        ensures
            r.function_arn@ == function_arn@,
            r.client_context@ == client_context@,
            r.message@ == message@,
    {
        LambdaContext { function_arn, client_context, message }
    }
}

impl PartialEq for LambdaContext {
    fn eq(&self, other: &LambdaContext) -> (r: bool) {
        let same_arn = self.function_arn == other.function_arn;
        let same_client = self.client_context == other.client_context;
        let same_message = self.message == other.message;
        proof {
            if same_message {
                assert(self.message@ =~= other.message@);
            }
        }
        same_arn && same_client && same_message
    }
}

impl vstd::std_specs::cmp::PartialEqSpecImpl for LambdaContext {
    open spec fn obeys_eq_spec() -> bool {
        true
    }

    open spec fn eq_spec(&self, other: &LambdaContext) -> bool {
        &&& self.function_arn@ == other.function_arn@
        &&& self.client_context@ == other.client_context@
        &&& self.message@ == other.message@
    }
}

/// Application code that processes one invocation at a time, on the worker thread;
/// it is shared with that thread, so it is `Send` and `Sync`.
pub trait Handler: Send + Sync {
    fn handle(&self, ctx: LambdaContext);
}

} // verus!
