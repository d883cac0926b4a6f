//! Nodes of the site tree, and the kit that finds them by path.

use vstd::prelude::*;

verus! {

/// A node of the site tree: where it is, and its title.
pub trait Node {
    spec fn path_view(&self) -> Seq<char>;

    spec fn title_view(&self) -> Seq<char>;

    fn new(path: String, title: String) -> (r: Self) where Self: Sized
        ensures
            r.path_view() == path@,
            r.title_view() == title@,
    ;

    fn path(&self) -> (r: String)
        ensures
            r@ == self.path_view(),
    ;

    fn title(&self) -> (r: String)
        ensures
            r@ == self.title_view(),
    ;
}

/// The node record.
pub struct NodeModel {
    path: String,
    title: String,
}

impl Node for NodeModel {
    closed spec fn path_view(&self) -> Seq<char> {
        self.path@
    }

    closed spec fn title_view(&self) -> Seq<char> {
        self.title@
    }

    fn new(path: String, title: String) -> (r: NodeModel) {
        NodeModel { path, title }
    }

    fn path(&self) -> (r: String) {
        self.path.clone()
    }

    fn title(&self) -> (r: String) {
        self.title.clone()
    }
}

/// Where nodes are stored. Each store says, by `found`, which answers it may
/// give to a lookup; what it finds is up to the store.
pub trait NodesRepository {
    /// Whether `r` is an answer this store may give to a lookup of `path`.
    spec fn found(&self, path: String, r: Option<NodeModel>) -> bool;

    fn find_path(&self, path: String) -> (r: Option<NodeModel>)
        ensures
            self.found(path, r),
    ;
}

/// Finds nodes by path.
pub trait NodeKit {
    fn find_path(&self, path: String) -> Option<NodeModel>;
}

/// The node kit: it asks its store.
pub struct KitStruct<R: NodesRepository> {
    pub(crate) repository: R,
}

impl<R: NodesRepository> KitStruct<R> {
    /// The store this kit asks.
    pub closed spec fn repository_view(&self) -> R {
        self.repository
    }
}

impl<R: NodesRepository> NodeKit for KitStruct<R> {
    /// Gives back what the kit's store finds for `path`.
    fn find_path(&self, path: String) -> (r: Option<NodeModel>)
        ensures
            self.repository_view().found(path, r),
    {
        self.repository.find_path(path)
    }
}

/// Makes node kits.
pub struct NodeKitFactory;

impl NodeKitFactory {
    /// A node kit that asks `repository`.
    pub fn build_node_kit<R: NodesRepository>(repository: R) -> (r: KitStruct<R>)
        ensures
            r.repository_view() == repository,
    {
        KitStruct { repository }
    }
}

} // verus!
