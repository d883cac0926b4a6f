//! The error of a refused registration, as a module of its own.

use vstd::prelude::*;
use crate::DomainError;

verus! {

/// Registration was refused; the message says why.
#[derive(Clone, Debug)]
pub struct RegisterUserError {
    pub(crate) message: String,
}

impl RegisterUserError {
    pub fn new(message: String) -> (r: RegisterUserError)
        ensures
            r.message_view() == message@,
    {
        RegisterUserError { message }
    }
}

impl DomainError for RegisterUserError {
    closed spec fn message_view(&self) -> Seq<char> {
        self.message@
    }

    fn message(&self) -> (r: String) {
        self.message.clone()
    }
}

} // verus!
