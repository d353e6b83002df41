//! Classification of handler initialization failures.
//!
//! Initialization runs once, in a fixed order: register the module directory
//! on the guest search path, import the module, locate the handler entry
//! type in it, and instantiate it with no arguments. A failure at any step
//! is fatal and ends the session before any event is processed; which
//! session error it becomes depends only on the step that failed.

use vstd::prelude::*;
use crate::events::SessionError;

verus! {

/// The steps of handler initialization, in execution order.
#[derive(Clone, Copy, Debug, PartialEq, Eq, Structural)]
pub enum InitStep {
    /// Registering the module's directory on the guest search path.
    RegisterSearchPath,
    /// Importing the module named after the file stem.
    ImportModule,
    /// Looking up the handler entry type in the imported module.
    LocateHandlerType,
    /// Instantiating the handler type with no arguments.
    Construct,
}

/// The fatal session error for a failure at the given initialization step,
/// carrying the guest diagnostic where one exists. A missing entry type has
/// no guest diagnostic: the symbol is simply absent.
pub fn classify_init_failure(step: InitStep, diagnostic: String) -> (r: SessionError)
    ensures
        step == InitStep::RegisterSearchPath ==> r == (SessionError::SearchPathFailed {
            diagnostic,
        }),
        step == InitStep::ImportModule ==> r == (SessionError::ImportFailed { diagnostic }),
        step == InitStep::LocateHandlerType ==> r == SessionError::NoHandlerType,
        step == InitStep::Construct ==> r == (SessionError::ConstructionFailed { diagnostic }),
{
    match step {
        InitStep::RegisterSearchPath => SessionError::SearchPathFailed { diagnostic },
        InitStep::ImportModule => SessionError::ImportFailed { diagnostic },
        InitStep::LocateHandlerType => SessionError::NoHandlerType,
        InitStep::Construct => SessionError::ConstructionFailed { diagnostic },
    }
}

} // verus!
