use vstd::prelude::*;
use vstd::string::StringExecFns;

use crate::base::ValueNode;
use crate::python::{ForeignRuntime, PythonNode};

verus! {

/// How the node of one configuration entry is made.
pub enum NodeKindSettings {
    /// An object of the extension class `node_name`, loaded from
    /// `search_path` when given and from the default module path otherwise.
    Python { search_path: Option<String>, node_name: String },
}

/// One configuration entry: the node's kind and its initial settings.
pub struct NodeSettings {
    pub kind: NodeKindSettings,
    pub settings: serde_json::Value,
}

/// The whole configuration: the default foreign module path and the entries,
/// each under its route name.
pub struct AppSettings {
    pub libfledge_path: String,
    pub nodes: Vec<(String, NodeSettings)>,
}

/// The ways in which building the registry can fail; either one stops the
/// process before it serves anything.
#[derive(Clone, Copy, PartialEq, Eq, Structural)]
pub enum StartupError {
    /// Two entries share a route name.
    DuplicateName,
    /// An entry's node could not be constructed.
    NodeConstruction,
}

/// A node of the registry.
pub enum Node {
    Reference(ValueNode),
    Bridge(PythonNode),
}

/// The module path from which the node of `kind` is loaded.
pub open spec fn resolved_path(kind: NodeKindSettings, default_path: Seq<char>) -> Seq<char> {
    match kind {
        NodeKindSettings::Python { search_path, node_name } => match search_path {
            Some(p) => p@,
            None => default_path,
        },
    }
}

/// The extension class that the node of `kind` instantiates.
pub open spec fn class_of(kind: NodeKindSettings) -> Seq<char> {
    match kind {
        NodeKindSettings::Python { search_path, node_name } => node_name@,
    }
}

/// `node` is what the entry of `kind` asks for under the default path.
pub open spec fn built_from(node: Node, kind: NodeKindSettings, default_path: Seq<char>) -> bool {
    match node {
        Node::Bridge(p) => p.search_path() == resolved_path(kind, default_path) && p.class_name()
            == class_of(kind),
        Node::Reference(_) => false,
    }
}

/// No two entries share a name.
pub open spec fn entry_names_unique<T>(entries: Seq<(String, T)>) -> bool {
    forall|i: int, j: int|
        0 <= i < j < entries.len() ==> #[trigger] entries[i].0@ != #[trigger] entries[j].0@
}

impl NodeSettings {
    /// Constructs the node that this entry describes.
    pub fn make_node(&self, settings: &AppSettings, rt: &mut ForeignRuntime) -> (r: Result<
        Node,
        StartupError,
    >)
        ensures
            r matches Ok(n) ==> built_from(n, self.kind, settings.libfledge_path@),
            r matches Err(e) ==> e == StartupError::NodeConstruction,
    {
        match &self.kind {
            NodeKindSettings::Python { search_path, node_name } => {
                let path = match search_path {
                    Some(p) => p.clone(),
                    None => settings.libfledge_path.clone(),
                };
                match PythonNode::load(rt, path, node_name.clone(), &self.settings) {
                    Ok(n) => Ok(Node::Bridge(n)),
                    Err(_) => Err(StartupError::NodeConstruction),
                }
            },
        }
    }
}

/// Whether an entry after position `i` has the name of entry `i`.
fn has_later_duplicate(entries: &Vec<(String, NodeSettings)>, i: usize) -> (r: bool)
    requires
        i < entries@.len(),
    ensures
        r == exists|j: int| i < j < entries@.len() && #[trigger] entries@[j].0@ == entries@[i as int].0@,
{
    let len = entries.len();
    let mut j: usize = i + 1;
    while j < len
        invariant
            i < j <= entries@.len(),
            len == entries@.len(),
            forall|k: int| i < k < j ==> #[trigger] entries@[k].0@ != entries@[i as int].0@,
        decreases entries@.len() - j,
    {
        if entries[j].0.eq(&entries[i].0) {
            return true;
        }
        j = j + 1;
    }
    false
}

/// Builds every node of the configuration, in order, under its name. The
/// registry is built whole or not at all: a repeated name is refused before
/// anything is loaded, and the first entry that cannot be constructed stops
/// the build.
pub fn build_registry(settings: &AppSettings, rt: &mut ForeignRuntime) -> (r: Result<
    Vec<(String, Node)>,
    StartupError,
>)
    ensures
        settings.nodes@.len() == 0 ==> (r matches Ok(v) && v@.len() == 0),
        (r == Err::<Vec<(String, Node)>, StartupError>(StartupError::DuplicateName))
            == !entry_names_unique(settings.nodes@),
        r matches Ok(v) ==> {
            &&& v@.len() == settings.nodes@.len()
            &&& entry_names_unique(v@)
            &&& forall|i: int|
                0 <= i < v@.len() ==> #[trigger] v@[i].0@ == settings.nodes@[i].0@ && built_from(
                    v@[i].1,
                    settings.nodes@[i].1.kind,
                    settings.libfledge_path@,
                )
        },
{
    let n = settings.nodes.len();
    let mut i: usize = 0;
    while i < n
        invariant
            n == settings.nodes@.len(),
            i <= n,
            forall|a: int, b: int|
                0 <= a < i && a < b < n ==> #[trigger] settings.nodes@[a].0@
                    != #[trigger] settings.nodes@[b].0@,
        decreases n - i,
    {
        if has_later_duplicate(&settings.nodes, i) {
            return Err(StartupError::DuplicateName);
        }
        i = i + 1;
    }
    let mut out: Vec<(String, Node)> = Vec::new();
    let mut i: usize = 0;
    while i < n
        invariant
            n == settings.nodes@.len(),
            i <= n,
            entry_names_unique(settings.nodes@),
            out@.len() == i,
            forall|k: int|
                0 <= k < i ==> #[trigger] out@[k].0@ == settings.nodes@[k].0@ && built_from(
                    out@[k].1,
                    settings.nodes@[k].1.kind,
                    settings.libfledge_path@,
                ),
        decreases n - i,
    {
        let node = match settings.nodes[i].1.make_node(settings, rt) {
            Ok(node) => node,
            Err(e) => return Err(e),
        };
        out.push((settings.nodes[i].0.clone(), node));
        i = i + 1;
    }
    proof {
        assert forall|a: int, b: int| 0 <= a < b < out@.len() implies #[trigger] out@[a].0@
            != #[trigger] out@[b].0@ by {
            assert(out@[a].0@ == settings.nodes@[a].0@);
            assert(out@[b].0@ == settings.nodes@[b].0@);
        }
    }
    Ok(out)
}

/// One node of the root index: its name and the path under which it is served.
pub struct RootResponseNode {
    pub name: String,
    pub url: String,
}

/// The root index: every registered node, in registry order.
pub struct RootResponse {
    pub nodes: Vec<RootResponseNode>,
}

impl RootResponse {
    /// The index of the nodes called `names`, each served under `/` and its name.
    pub fn from_names(names: &Vec<String>) -> (r: RootResponse)
        ensures
            r.nodes@.len() == names@.len(),
            forall|i: int|
                0 <= i < names@.len() ==> #[trigger] r.nodes@[i].name@ == names@[i]@ && r.nodes@[i].url@
                    == seq!['/'] + names@[i]@,
    {
        let mut nodes: Vec<RootResponseNode> = Vec::new();
        let mut i: usize = 0;
        while i < names.len()
            invariant
                i <= names@.len(),
                nodes@.len() == i,
                forall|k: int|
                    0 <= k < i ==> #[trigger] nodes@[k].name@ == names@[k]@ && nodes@[k].url@
                        == seq!['/'] + names@[k]@,
            decreases names@.len() - i,
        {
            let mut url = String::from_str("/");
            proof {
                reveal_strlit("/");
            }
            url.append(names[i].as_str());
            nodes.push(RootResponseNode { name: names[i].clone(), url });
            i = i + 1;
        }
        RootResponse { nodes }
    }
}

} // verus!
