//! Verified core of the Veruna site engine: sites, pages, nodes, users,
//! roles, the storage-side records and the editor.js renderer.

pub mod data;
pub mod editorjs;
pub mod nodes;
pub mod pages;
pub mod roles;
pub mod sites;
pub mod users;

use vstd::prelude::*;

verus! {

/// An error raised by the domain layer, readable as a message.
pub trait DomainError {
    /// The message this error carries.
    spec fn message_view(&self) -> Seq<char>;

    fn message(&self) -> (r: String)
        ensures
            r@ == self.message_view(),
    ;
}

/// An error raised by the storage layer, readable as a message.
pub trait DataError {
    /// The message this error carries.
    spec fn message_view(&self) -> Seq<char>;

    fn message(&self) -> (r: String)
        ensures
            r@ == self.message_view(),
    ;
}

/// The identifier of a stored record.
pub trait RecordId {
    /// The identifier's text.
    spec fn value_view(&self) -> Seq<char>;

    fn value(&self) -> (r: String)
        ensures
            r@ == self.value_view(),
    ;
}

} // verus!
