use veruna::nodes::{Node, NodeKit, NodeKitFactory, NodeModel, NodesRepository};

struct OneNode;

impl NodesRepository for OneNode {
    fn found(&self, path: String, r: Option<NodeModel>) -> bool {
        match r {
            Some(node) => path == "/about" && node.path() == path && node.title() == "About",
            None => path != "/about",
        }
    }

    fn find_path(&self, path: String) -> Option<NodeModel> {
        if path == "/about" {
            Some(NodeModel::new(path, "About".to_string()))
        } else {
            None
        }
    }
}

#[test]
fn node_model_keeps_path_and_title() {
    let node = NodeModel::new("/a/b".to_string(), "B".to_string());
    assert_eq!(node.path(), "/a/b");
    assert_eq!(node.title(), "B");
}

#[test]
fn node_kit_asks_its_store() {
    let kit = NodeKitFactory::build_node_kit(OneNode);
    assert_eq!(kit.find_path("/about".to_string()).unwrap().title(), "About");
    assert!(kit.find_path("/none".to_string()).is_none());
    let about = NodeModel::new("/about".to_string(), "About".to_string());
    assert!(OneNode.found("/about".to_string(), Some(about)));
    assert!(OneNode.found("/none".to_string(), None));
}
