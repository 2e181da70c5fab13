//! A bridge from the Greengrass core native runtime to an application handler
//! running on a thread of its own, with structured errors in place of status codes.
#![allow(non_camel_case_types)]

pub mod channel;
pub mod error;
pub mod handler;
pub mod read;
pub mod request;
pub mod runtime;

use vstd::prelude::*;
use crate::error::{code_error, gg_error, GGError};
use crate::runtime::Runtime;

verus! {

/// The result of the operations of the bridge.
pub type GGResult<T> = Result<T, GGError>;

/// The flags of the one-time global initialization of the native library.
pub const GLOBAL_INIT_FLAGS: u32 = 0;

/// Initializes the native library once, then starts the runtime it holds.
pub struct Initializer {
    runtime: Runtime,
}

impl Default for Initializer {
    fn default() -> (r: Self)
        ensures
            r.runtime().option() == runtime::RuntimeOption::Sync,
            !r.runtime().has_handler(),
    {
        Initializer { runtime: Runtime::default() }
    }
}

impl Initializer {
    pub closed spec fn runtime(&self) -> Runtime {
        self.runtime
    }

    /// The same initializer, starting the given runtime.
    pub fn with_runtime(self, runtime: Runtime) -> (r: Self)
        ensures
            r.runtime() == runtime,
    {
        Initializer { runtime, ..self }
    }

    /// Takes the status of the native library's global initialization, made with
    /// `GLOBAL_INIT_FLAGS`: on success, the runtime to start; else the error it stands for.
    pub fn init(self, init_status: gg_error) -> (r: GGResult<Runtime>)
        ensures
            match code_error(init_status) {
                Some(e) => r == Err::<Runtime, GGError>(e),
                None => r == Ok::<Runtime, GGError>(self.runtime()),
            },
    {
        GGError::from_code(init_status)?;
        Ok(self.runtime)
    }
}

} // verus!
