//! The engine's once-only lifecycle decisions.
//!
//! The process holds exactly one engine; initialization may happen at most
//! once, and no handle can be obtained before it.  This state machine decides
//! both rules; the process-wide cell holding it and the worker thread live
//! outside the library.

use vstd::prelude::*;

use crate::error::GenericError;
use crate::EngineError;
use crate::EngineErrorDescription;

verus! {

/// Whether the process-wide engine has been initialized.
pub struct EngineLifecycle {
    initialized: bool,
}

impl EngineLifecycle {
    /// The engine has been initialized.
    pub closed spec fn is_initialized(&self) -> bool {
        self.initialized
    }

    /// The state at process start: not initialized.
    pub fn new() -> (r: Self)
        ensures
            !r.is_initialized(),
    {
        EngineLifecycle { initialized: false }
    }

    /// Claims initialization: succeeds the first time, and fails with
    /// `AlreadyInitialized`, changing nothing, on every later attempt.
    pub fn mark_initialized(&mut self) -> (r: Result<(), EngineError>)
        ensures
            !old(self).is_initialized() ==> (r matches Ok(u) && final (self).is_initialized()),
            old(self).is_initialized() ==> (r matches Err(e) && e.0
                == EngineErrorDescription::AlreadyInitialized && final (self).is_initialized()),
    {
        if self.initialized {
            Err(GenericError::new(EngineErrorDescription::AlreadyInitialized))
        } else {
            self.initialized = true;
            Ok(())
        }
    }

    /// Gates handle creation: succeeds exactly when the engine has been
    /// initialized, and fails with `NotInitialized` before that.
    pub fn require_initialized(&self) -> (r: Result<(), EngineError>)
        ensures
            self.is_initialized() ==> r matches Ok(u),
            !self.is_initialized() ==> (r matches Err(e) && e.0
                == EngineErrorDescription::NotInitialized),
    {
        if self.initialized {
            Ok(())
        } else {
            Err(GenericError::new(EngineErrorDescription::NotInitialized))
        }
    }
}

} // verus!
