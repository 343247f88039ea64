//! The privilege levels of the processor.

use vstd::prelude::*;

verus! {

/// What the processor is running as. A kernel says at which exception
/// level it is.
#[derive(Clone, Copy, Debug, PartialEq, Eq, Structural)]
pub enum PrivilegeLevel {
    Kernel(ExceptionLevel),
    Supervisor,
    User,
}

impl PrivilegeLevel {
    pub open spec fn spec_is_kernel(&self) -> bool {
        *self is Kernel
    }

    pub open spec fn spec_is_in_exception(&self) -> bool {
        *self == PrivilegeLevel::Kernel(ExceptionLevel::Level1) || *self == PrivilegeLevel::Kernel(
            ExceptionLevel::Level2,
        )
    }

    pub fn is_kernel(&self) -> (r: bool)
        ensures
            r == self.spec_is_kernel(),
    {
        match self {
            PrivilegeLevel::Kernel(_) => true,
            _ => false,
        }
    }

    pub fn is_in_exception(&self) -> (r: bool)
        ensures
            r == self.spec_is_in_exception(),
    {
        match self {
            PrivilegeLevel::Kernel(ExceptionLevel::Level1) | PrivilegeLevel::Kernel(
                ExceptionLevel::Level2,
            ) => true,
            _ => false,
        }
    }
}

/// The level of the exception that is being handled, if any.
#[derive(Clone, Copy, Debug, PartialEq, Eq, Structural)]
pub enum ExceptionLevel {
    NoException,
    Level1,
    Level2,
}

} // verus!
