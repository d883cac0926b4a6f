//! The identifier of a user.

use vstd::prelude::*;

verus! {

/// Read access to a user identifier.
pub trait UserIdTrait {
    spec fn value_view(&self) -> Seq<char>;

    fn value(&self) -> (r: String)
        ensures
            r@ == self.value_view(),
    ;
}

/// The stored identifier of a user.
#[derive(Clone)]
pub struct UserId {
    pub value: String,
}

impl UserIdTrait for UserId {
    open spec fn value_view(&self) -> Seq<char> {
        self.value@
    }

    fn value(&self) -> (r: String) {
        self.value.clone()
    }
}

} // verus!
