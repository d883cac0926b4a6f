//! What a successful login vouches for.

use vstd::prelude::*;

verus! {

/// Read access to the claims of a logged-in user.
pub trait ClaimsTrait {
    spec fn username_view(&self) -> Seq<char>;

    spec fn id_view(&self) -> Seq<char>;

    fn username(&self) -> (r: String)
        ensures
            r@ == self.username_view(),
    ;

    fn id(&self) -> (r: String)
        ensures
            r@ == self.id_view(),
    ;
}

/// The claims of a logged-in user: who they are.
pub struct Claims {
    username: String,
    id: String,
}

impl Claims {
    pub fn new(username: String, id: String) -> (r: Claims)
        ensures
            r.username_view() == username@,
            r.id_view() == id@,
    {
        Claims { username, id }
    }
}

impl ClaimsTrait for Claims {
    closed spec fn username_view(&self) -> Seq<char> {
        self.username@
    }

    closed spec fn id_view(&self) -> Seq<char> {
        self.id@
    }

    fn username(&self) -> (r: String) {
        self.username.clone()
    }

    fn id(&self) -> (r: String) {
        self.id.clone()
    }
}

} // verus!
