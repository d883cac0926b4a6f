//! The list of users shown to an administrator.

use vstd::prelude::*;
use std::sync::Arc;

verus! {

/// Read access to an entry of the user list.
pub trait UserListItemTrait {
    spec fn username_view(&self) -> Seq<char>;

    spec fn id_view(&self) -> Seq<char>;

    fn username(&self) -> (r: String)
        ensures
            r@ == self.username_view(),
    ;

    fn id(&self) -> (r: String)
        ensures
            r@ == self.id_view(),
    ;
}

/// An entry of the user list.
#[derive(Clone)]
pub struct UserListItem {
    username: String,
    id: String,
}

impl UserListItem {
    /// Builds an entry; note the order of the arguments: the identifier comes first.
    pub fn new(id: String, username: String) -> (r: UserListItem)
        ensures
            r.id_view() == id@,
            r.username_view() == username@,
    {
        UserListItem { username, id }
    }
}

impl UserListItemTrait for UserListItem {
    closed spec fn username_view(&self) -> Seq<char> {
        self.username@
    }

    closed spec fn id_view(&self) -> Seq<char> {
        self.id@
    }

    fn username(&self) -> (r: String) {
        self.username.clone()
    }

    fn id(&self) -> (r: String) {
        self.id.clone()
    }
}

/// Read access to a user list.
pub trait UserListTrait {
    spec fn list_view(&self) -> Seq<UserListItem>;

    fn list(&self) -> (r: Arc<Vec<UserListItem>>)
        ensures
            r@ == self.list_view(),
    ;
}

/// A list of users, shared between its readers.
pub struct UserList {
    list: Arc<Vec<UserListItem>>,
}

impl UserList {
    pub fn new(list: Vec<UserListItem>) -> (r: UserList)
        ensures
            r.list_view() == list@,
    {
        UserList { list: Arc::new(list) }
    }
}

impl UserListTrait for UserList {
    closed spec fn list_view(&self) -> Seq<UserListItem> {
        self.list@
    }

    fn list(&self) -> (r: Arc<Vec<UserListItem>>) {
        self.list.clone()
    }
}

} // verus!
