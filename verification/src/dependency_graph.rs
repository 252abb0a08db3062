//! The tree of a root project, its subprojects and its dependencies.
//!
//! The nodes stand in one list, each node behind its parent. A node refers
//! to its parent and to the root of its tree by their places in the list.

use crate::final_dependencies::{FinalPredefinedDependencyConfig, FinalPredepInfo};
use crate::parsers::link_specifier::{LinkModel, LinkSpecifier};
use crate::sequences::{collect, lemma_collect_error_stays, lemma_collect_push, value_under, views};
use crate::text::{list_contains, str_equal, strings_of};
use crate::validators::{is_valid_target_name, name_accepted};
use vstd::prelude::*;
use vstd::string::*;

verus! {

/// A project of the tree that is being built.
#[derive(Clone, Debug)]
pub struct NormalProject {
    full_include_prefix: String,
}

impl NormalProject {
    /// The include prefix, seen as a text.
    pub closed spec fn include_prefix(&self) -> Seq<char> {
        self.full_include_prefix@
    }

    /// A project whose headers are included under `full_include_prefix`.
    pub fn new(full_include_prefix: String) -> (r: Self)
        ensures
            r.include_prefix() == full_include_prefix@,
    {
        Self { full_include_prefix }
    }

    /// The prefix under which the headers of the project are included.
    pub fn get_full_include_prefix(&self) -> (r: &str)
        ensures
            r@ == self.include_prefix(),
    {
        self.full_include_prefix.as_str()
    }
}

/// A dependency that is itself a whole project tree with a repository of its own.
#[derive(Clone, Debug)]
pub struct GCMakeDependencyRoot {
    repo_url: String,
}

impl GCMakeDependencyRoot {
    /// The address of the repository, seen as a text.
    pub closed spec fn url(&self) -> Seq<char> {
        self.repo_url@
    }

    /// A dependency that is cloned from `repo_url`.
    pub fn new(repo_url: String) -> (r: Self)
        ensures
            r.url() == repo_url@,
    {
        Self { repo_url }
    }

    /// The address of the repository.
    pub fn repo_url(&self) -> (r: &str)
        ensures
            r@ == self.url(),
    {
        self.repo_url.as_str()
    }
}

/// What a node of the tree is.
#[derive(Clone, Debug)]
pub enum ProjectWrapper {
    NormalProject(NormalProject),
    PredefinedDependency(FinalPredefinedDependencyConfig),
    GCMakeDependencyRoot(GCMakeDependencyRoot),
}

impl ProjectWrapper {
    /// The project, where the node is a project of the tree that is being built.
    pub fn maybe_normal_project(&self) -> (r: Option<&NormalProject>)
        ensures
            match *self {
                Self::NormalProject(project) => r == Some(&project),
                _ => r is None,
            },
    {
        match self {
            Self::NormalProject(project) => Some(project),
            _ => None,
        }
    }
}

/// One node of the tree.
#[derive(Debug)]
struct GraphNode {
    name: String,
    wrapper: ProjectWrapper,
    targets: Vec<String>,
    root: usize,
    parent: Option<usize>,
}

/// The mathematical form of a node: its name, what it is, the names of the
/// targets that it defines, and the places of the root of its tree and of its parent.
pub ghost struct NodeModel {
    pub name: Seq<char>,
    pub wrapper: ProjectWrapper,
    pub targets: Seq<Seq<char>>,
    pub root: int,
    pub parent: Option<int>,
}

impl View for GraphNode {
    type V = NodeModel;

    closed spec fn view(&self) -> NodeModel {
        NodeModel {
            name: self.name@,
            wrapper: self.wrapper,
            targets: strings_of(self.targets@),
            root: self.root as int,
            parent: match self.parent {
                Some(parent) => Some(parent as int),
                None => None,
            },
        }
    }
}

/// The tree of a root project, its subprojects and its dependencies.
#[derive(Debug)]
pub struct DependencyGraph {
    nodes: Vec<GraphNode>,
}

impl View for DependencyGraph {
    type V = Seq<NodeModel>;

    closed spec fn view(&self) -> Seq<NodeModel> {
        views(self.nodes@)
    }
}

/// The place of the root of the tree of a node at place `at` under the
/// parent at place `parent`: a project belongs to the tree of its parent; a
/// dependency is the root of a tree of its own.
pub open spec fn root_under(nodes: Seq<NodeModel>, parent: int, wrapper: ProjectWrapper, at: int) -> int {
    if wrapper is NormalProject {
        nodes[parent].root
    } else {
        at
    }
}

/// Whether the node at place `i` fits into the tree.
pub open spec fn node_fits(nodes: Seq<NodeModel>, i: int) -> bool {
    let node = nodes[i];
    &&& 0 <= node.root <= i
    &&& nodes[node.root].root == node.root
    &&& forall|k: int| 0 <= k < node.targets.len() ==> name_accepted(#[trigger] node.targets[k])
    &&& if i == 0 {
        node.parent is None && node.root == 0
    } else {
        &&& node.parent matches Some(parent)
        &&& 0 <= parent < i
        &&& node.root == root_under(nodes, parent, node.wrapper, i)
    }
}

/// Whether `nodes` is a tree: the first node is its root, every other node
/// stands behind its parent, every node knows the root of its own tree,
/// every target name is a valid target name, and no two children of one
/// node have the same name.
pub open spec fn is_tree(nodes: Seq<NodeModel>) -> bool {
    &&& nodes.len() > 0
    &&& forall|i: int| 0 <= i < nodes.len() ==> node_fits(nodes, i)
    &&& forall|i: int, j: int|
        0 <= i < j < nodes.len() && nodes[i].parent == nodes[j].parent ==> nodes[i].name
            != nodes[j].name
}

/// The message for a target whose name is not a valid target name.
pub open spec fn invalid_target_message(project: Seq<char>, target: Seq<char>) -> Seq<char> {
    "\""@ + target + "\" is not a valid target name in project \""@ + project + "\"."@
}

/// The message for a node whose parent already has a child of the same name.
pub open spec fn duplicate_child_message(name: Seq<char>) -> Seq<char> {
    "A project or dependency named \""@ + name + "\" already exists here."@
}

/// The message for a node whose parent is not in the tree.
pub open spec fn missing_parent_message(name: Seq<char>) -> Seq<char> {
    "The parent of \""@ + name + "\" is not part of the project tree."@
}

/// The first of `targets` that is no valid target name.
pub open spec fn first_invalid_target(targets: Seq<Seq<char>>) -> Option<Seq<char>>
    decreases targets.len(),
{
    if targets.len() == 0 {
        None
    } else if !name_accepted(targets[0]) {
        Some(targets[0])
    } else {
        first_invalid_target(targets.drop_first())
    }
}

/// Where no target is invalid, every target is a valid target name.
pub proof fn lemma_no_invalid_target(targets: Seq<Seq<char>>)
    requires
        first_invalid_target(targets) is None,
    ensures
        forall|k: int| 0 <= k < targets.len() ==> name_accepted(#[trigger] targets[k]),
    decreases targets.len(),
{
    if targets.len() > 0 {
        let rest = targets.drop_first();
        lemma_no_invalid_target(rest);
        assert forall|k: int| 0 <= k < targets.len() implies name_accepted(
            #[trigger] targets[k],
        ) by {
            if k > 0 {
                assert(targets[k] == rest[k - 1]);
            }
        }
    }
}

/// Whether a child of the node at place `parent` is called `name`.
pub open spec fn has_child_named(nodes: Seq<NodeModel>, parent: int, name: Seq<char>) -> bool {
    exists|i: int|
        0 <= i < nodes.len() && (#[trigger] nodes[i]).parent == Some(parent) && nodes[i].name
            == name
}

/// What adding a node under the parent at place `parent` comes to: the
/// tree with the node behind all others, or the message that refuses it.
pub open spec fn with_node(
    nodes: Seq<NodeModel>,
    parent: int,
    name: Seq<char>,
    wrapper: ProjectWrapper,
    targets: Seq<Seq<char>>,
) -> Result<Seq<NodeModel>, Seq<char>> {
    if !(0 <= parent < nodes.len()) {
        Err(missing_parent_message(name))
    } else if has_child_named(nodes, parent, name) {
        Err(duplicate_child_message(name))
    } else if first_invalid_target(targets) is Some {
        Err(invalid_target_message(name, first_invalid_target(targets)->0))
    } else {
        Ok(
            nodes.push(
                NodeModel {
                    name,
                    wrapper,
                    targets,
                    root: root_under(nodes, parent, wrapper, nodes.len() as int),
                    parent: Some(parent),
                },
            ),
        )
    }
}

/// A tree with one more node is a tree.
pub proof fn adding_a_node_keeps_the_tree(
    nodes: Seq<NodeModel>,
    parent: int,
    name: Seq<char>,
    wrapper: ProjectWrapper,
    targets: Seq<Seq<char>>,
)
    requires
        is_tree(nodes),
        with_node(nodes, parent, name, wrapper, targets) is Ok,
    ensures
        is_tree(with_node(nodes, parent, name, wrapper, targets)->Ok_0),
{
    let grown = with_node(nodes, parent, name, wrapper, targets)->Ok_0;
    let last = nodes.len() as int;
    lemma_no_invalid_target(targets);
    assert(node_fits(nodes, parent));
    assert forall|i: int| 0 <= i < grown.len() implies node_fits(grown, i) by {
        if i < last {
            assert(node_fits(nodes, i));
            assert(grown[i] == nodes[i]);
            assert(grown[nodes[i].root] == nodes[nodes[i].root]);
            if i > 0 {
                assert(grown[nodes[i].parent->0] == nodes[nodes[i].parent->0]);
            }
        } else {
            assert(grown[parent] == nodes[parent]);
            assert(grown[nodes[parent].root] == nodes[nodes[parent].root]);
        }
    }
    assert forall|i: int, j: int|
        0 <= i < j < grown.len() && grown[i].parent == grown[j].parent implies grown[i].name
            != grown[j].name by {
        if j < last {
            assert(grown[i] == nodes[i] && grown[j] == nodes[j]);
        } else {
            assert(grown[i] == nodes[i]);
        }
    }
}

/// The first of `targets` that is no valid target name.
fn find_invalid_target(targets: &Vec<String>) -> (r: Option<usize>)
    ensures
        match r {
            Some(i) => i < targets@.len() && first_invalid_target(strings_of(targets@)) == Some(
                targets@[i as int]@,
            ),
            None => first_invalid_target(strings_of(targets@)) is None,
        },
{
    let ghost all = strings_of(targets@);
    let mut i: usize = 0;
    assert(all.skip(0) =~= all);
    while i < targets.len()
        invariant
            i <= targets@.len(),
            all == strings_of(targets@),
            first_invalid_target(all) == first_invalid_target(all.skip(i as int)),
        decreases targets@.len() - i,
    {
        assert(all.skip(i as int)[0] == targets@[i as int]@);
        if !is_valid_target_name(targets[i].as_str()) {
            return Some(i);
        }
        assert(all.skip(i as int).drop_first() =~= all.skip(i + 1));
        i += 1;
    }
    None
}

/// Renders a message of three fixed parts around two names.
fn message_with(first: &str, name: &str, second: &str, other: &str, third: &str) -> (r: String)
    ensures
        r@ == first@ + name@ + second@ + other@ + third@,
{
    let mut message = String::from_str(first);
    message.append(name);
    message.append(second);
    message.append(other);
    message.append(third);
    message
}

/// Renders a message of two fixed parts around a name.
fn message_about(first: &str, name: &str, second: &str) -> (r: String)
    ensures
        r@ == first@ + name@ + second@,
{
    let mut message = String::from_str(first);
    message.append(name);
    message.append(second);
    message
}

/// What a tree of the root alone comes to.
pub open spec fn root_alone(name: Seq<char>, wrapper: ProjectWrapper, targets: Seq<Seq<char>>) -> Result<
    Seq<NodeModel>,
    Seq<char>,
> {
    if first_invalid_target(targets) is Some {
        Err(invalid_target_message(name, first_invalid_target(targets)->0))
    } else {
        Ok(seq![NodeModel { name, wrapper, targets, root: 0, parent: None }])
    }
}

impl DependencyGraph {
    /// Whether the nodes form a tree.
    pub open spec fn wf(&self) -> bool {
        is_tree(self@)
    }

    /// A tree of the root `name` alone, which defines the targets `targets`.
    pub fn new_root(name: String, wrapper: ProjectWrapper, targets: Vec<String>) -> (r: Result<
        DependencyGraph,
        String,
    >)
        ensures
            match root_alone(name@, wrapper, strings_of(targets@)) {
                Ok(nodes) => r matches Ok(graph) && graph@ == nodes && graph.wf(),
                Err(message) => r matches Err(given) && given@ == message,
            },
    {
        match find_invalid_target(&targets) {
            Some(i) => {
                return Err(
                    message_with(
                        "\"",
                        targets[i].as_str(),
                        "\" is not a valid target name in project \"",
                        name.as_str(),
                        "\".",
                    ),
                );
            },
            None => {},
        }
        let ghost wanted = root_alone(name@, wrapper, strings_of(targets@))->Ok_0;
        let mut nodes: Vec<GraphNode> = Vec::new();
        nodes.push(GraphNode { name, wrapper, targets, root: 0, parent: None });
        let graph = DependencyGraph { nodes };
        proof {
            assert(graph@ =~= wanted);
            lemma_no_invalid_target(wanted[0].targets);
            assert(node_fits(graph@, 0));
        }
        Ok(graph)
    }

    /// Number of nodes.
    pub fn node_count(&self) -> (r: usize)
        ensures
            r == self@.len(),
    {
        self.nodes.len()
    }

    /// Whether the node at place `parent` has a child called `name`.
    fn child_named(&self, parent: usize, name: &str) -> (r: Option<usize>)
        ensures
            match r {
                Some(i) => i < self@.len() && self@[i as int].parent == Some(parent as int)
                    && self@[i as int].name == name@ && forall|j: int|
                    0 <= j < i ==> !((#[trigger] self@[j]).parent == Some(parent as int)
                        && self@[j].name == name@),
                None => !has_child_named(self@, parent as int, name@),
            },
    {
        let mut i: usize = 0;
        while i < self.nodes.len()
            invariant
                i <= self.nodes@.len(),
                forall|j: int|
                    0 <= j < i ==> !((#[trigger] self@[j]).parent == Some(parent as int)
                        && self@[j].name == name@),
            decreases self.nodes@.len() - i,
        {
            let is_child = match self.nodes[i].parent {
                Some(given) => given == parent,
                None => false,
            };
            if is_child && str_equal(self.nodes[i].name.as_str(), name) {
                return Some(i);
            }
            i += 1;
        }
        None
    }

    /// Adds a node under the node at place `parent`: a subproject where
    /// `wrapper` is a project, else a dependency. Gives the place of the new
    /// node. A tree that refuses the node stays as it was.
    pub fn add_node(
        &mut self,
        parent: usize,
        name: String,
        wrapper: ProjectWrapper,
        targets: Vec<String>,
    ) -> (r: Result<usize, String>)
        ensures
            old(self).wf() ==> final(self).wf(),
            match with_node(old(self)@, parent as int, name@, wrapper, strings_of(targets@)) {
                Ok(nodes) => r == Ok::<usize, String>(old(self)@.len() as usize) && final(self)@
                    == nodes,
                Err(message) => r matches Err(given) && given@ == message && final(self)@ == old(
                    self,
                )@,
            },
    {
        if parent >= self.nodes.len() {
            return Err(
                message_about(
                    "The parent of \"",
                    name.as_str(),
                    "\" is not part of the project tree.",
                ),
            );
        }
        match self.child_named(parent, name.as_str()) {
            Some(_) => {
                return Err(
                    message_about(
                        "A project or dependency named \"",
                        name.as_str(),
                        "\" already exists here.",
                    ),
                );
            },
            None => {},
        }
        match find_invalid_target(&targets) {
            Some(i) => {
                return Err(
                    message_with(
                        "\"",
                        targets[i].as_str(),
                        "\" is not a valid target name in project \"",
                        name.as_str(),
                        "\".",
                    ),
                );
            },
            None => {},
        }
        let at: usize = self.nodes.len();
        let root: usize = match &wrapper {
            ProjectWrapper::NormalProject(_) => self.nodes[parent].root,
            _ => at,
        };
        let ghost before = self@;
        let ghost wanted = with_node(before, parent as int, name@, wrapper, strings_of(targets@))->Ok_0;
        proof {
            if is_tree(before) {
                adding_a_node_keeps_the_tree(
                    before,
                    parent as int,
                    name@,
                    wrapper,
                    strings_of(targets@),
                );
            }
        }
        self.nodes.push(GraphNode { name, wrapper, targets, root, parent: Some(parent) });
        assert(self@ =~= wanted);
        Ok(at)
    }

    /// The name of the node at place `node`, for messages.
    pub fn project_debug_name(&self, node: usize) -> (r: &str)
        requires
            node < self@.len(),
        ensures
            r@ == self@[node as int].name,
    {
        self.nodes[node].name.as_str()
    }

    /// What the node at place `node` is.
    pub fn project_wrapper(&self, node: usize) -> (r: &ProjectWrapper)
        requires
            node < self@.len(),
        ensures
            *r == self@[node as int].wrapper,
    {
        &self.nodes[node].wrapper
    }

    /// The place of the root of the tree of the node at place `node`.
    pub fn root_project(&self, node: usize) -> (r: usize)
        requires
            node < self@.len(),
        ensures
            r == self@[node as int].root,
    {
        self.nodes[node].root
    }

    /// The place of the parent of the node at place `node`.
    pub fn parent_project(&self, node: usize) -> (r: Option<usize>)
        requires
            node < self@.len(),
        ensures
            match r {
                Some(parent) => self@[node as int].parent == Some(parent as int),
                None => self@[node as int].parent is None,
            },
    {
        self.nodes[node].parent
    }

    /// The names of the targets that the node at place `node` defines.
    pub fn get_targets(&self, node: usize) -> (r: &Vec<String>)
        requires
            node < self@.len(),
        ensures
            strings_of(r@) == self@[node as int].targets,
    {
        &self.nodes[node].targets
    }

    /// The places of the subprojects of the node at place `node`: its
    /// children that are projects, in the order in which they were added.
    pub fn get_subprojects(&self, node: usize) -> (r: Vec<usize>)
        ensures
            forall|k: int| 0 <= k < r@.len() ==> is_subproject_of(self@, r@[k] as int, node as int),
            forall|i: int|
                is_subproject_of(self@, i, node as int) ==> exists|k: int|
                    0 <= k < r@.len() && r@[k] == i,
            forall|k: int, m: int| 0 <= k < m < r@.len() ==> r@[k] < r@[m],
    {
        let mut found: Vec<usize> = Vec::new();
        let mut i: usize = 0;
        while i < self.nodes.len()
            invariant
                i <= self.nodes@.len(),
                forall|k: int|
                    0 <= k < found@.len() ==> found@[k] < i && is_subproject_of(
                        self@,
                        found@[k] as int,
                        node as int,
                    ),
                forall|j: int|
                    0 <= j < i && is_subproject_of(self@, j, node as int) ==> exists|k: int|
                        0 <= k < found@.len() && found@[k] == j,
                forall|k: int, m: int| 0 <= k < m < found@.len() ==> found@[k] < found@[m],
            decreases self.nodes@.len() - i,
        {
            let is_child = match self.nodes[i].parent {
                Some(given) => given == node,
                None => false,
            };
            let is_project = match &self.nodes[i].wrapper {
                ProjectWrapper::NormalProject(_) => true,
                _ => false,
            };
            if is_child && is_project {
                let ghost before = found@;
                found.push(i);
                assert forall|j: int|
                    0 <= j < i + 1 && is_subproject_of(self@, j, node as int) implies exists|
                    k: int,
                |
                    0 <= k < found@.len() && found@[k] == j by {
                    if j < i {
                        let k = choose|k: int| 0 <= k < before.len() && before[k] == j;
                        assert(found@[k] == j);
                    } else {
                        assert(found@[before.len() as int] == j);
                    }
                }
            }
            i += 1;
        }
        found
    }

    /// The place of the first subproject of the node at place `node` that is called `name`.
    pub fn find_subproject(&self, node: usize, name: &str) -> (r: Option<usize>)
        ensures
            match r {
                Some(i) => is_subproject_of(self@, i as int, node as int) && self@[i as int].name
                    == name@ && forall|j: int|
                    0 <= j < i && is_subproject_of(self@, j, node as int) ==> self@[j].name
                        != name@,
                None => forall|i: int|
                    is_subproject_of(self@, i, node as int) ==> self@[i].name != name@,
            },
    {
        let mut i: usize = 0;
        while i < self.nodes.len()
            invariant
                i <= self.nodes@.len(),
                forall|j: int|
                    0 <= j < i && is_subproject_of(self@, j, node as int) ==> self@[j].name
                        != name@,
            decreases self.nodes@.len() - i,
        {
            let is_child = match self.nodes[i].parent {
                Some(given) => given == node,
                None => false,
            };
            let is_project = match &self.nodes[i].wrapper {
                ProjectWrapper::NormalProject(_) => true,
                _ => false,
            };
            if is_child && is_project && str_equal(self.nodes[i].name.as_str(), name) {
                return Some(i);
            }
            i += 1;
        }
        None
    }
}

/// Whether the node at place `i` is a subproject of the node at place `parent`.
pub open spec fn is_subproject_of(nodes: Seq<NodeModel>, i: int, parent: int) -> bool {
    &&& 0 <= i < nodes.len()
    &&& nodes[i].parent == Some(parent)
    &&& nodes[i].wrapper is NormalProject
}

/// The message for a dependency that is found on the system.
pub open spec fn not_cloned_message(name: Seq<char>) -> Seq<char> {
    "Repository information is not available for \""@ + name
        + "\" because it is retrieved from the system, not cloned as part of the build."@
}

/// The address of the repository of the node at place `node`, or why it has
/// none. A predefined dependency that is cloned has the address that it is
/// cloned from; one that the system provides has none. A dependency that
/// is a project tree has its own. A project has the address of the root of
/// its tree where that root is such a dependency, and none otherwise.
pub open spec fn repo_url_of(nodes: Seq<NodeModel>, node: int) -> Result<Seq<char>, Seq<char>> {
    match nodes[node].wrapper {
        ProjectWrapper::PredefinedDependency(config) => match config.info() {
            FinalPredepInfo::Subdirectory(dep) => Ok(dep@.repo_url),
            _ => Err(not_cloned_message(nodes[node].name)),
        },
        ProjectWrapper::GCMakeDependencyRoot(dep) => Ok(dep.url()),
        ProjectWrapper::NormalProject(_) => if 0 <= nodes[node].root < nodes.len() {
            match nodes[nodes[node].root].wrapper {
                ProjectWrapper::GCMakeDependencyRoot(root) => Ok(root.url()),
                _ => Err("No repo URL"@),
            }
        } else {
            Err("No repo URL"@)
        },
    }
}

/// The address of the repository of the node at place `node`, or the
/// message that says why it has none.
pub fn extract_repo_url(project_graph: &DependencyGraph, node: usize) -> (r: Result<String, String>)
    requires
        node < project_graph@.len(),
    ensures
        match repo_url_of(project_graph@, node as int) {
            Ok(url) => r matches Ok(given) && given@ == url,
            Err(message) => r matches Err(given) && given@ == message,
        },
{
    match project_graph.project_wrapper(node) {
        ProjectWrapper::PredefinedDependency(config) => match config.predefined_dep_info() {
            FinalPredepInfo::Subdirectory(dep) => Ok(String::from_str(dep.repo_url())),
            _ => Err(
                message_about(
                    "Repository information is not available for \"",
                    project_graph.project_debug_name(node),
                    "\" because it is retrieved from the system, not cloned as part of the build.",
                ),
            ),
        },
        ProjectWrapper::GCMakeDependencyRoot(dep) => Ok(String::from_str(dep.repo_url())),
        ProjectWrapper::NormalProject(_) => {
            let root = project_graph.root_project(node);
            if root < project_graph.node_count() {
                match project_graph.project_wrapper(root) {
                    ProjectWrapper::GCMakeDependencyRoot(dep) => Ok(
                        String::from_str(dep.repo_url()),
                    ),
                    _ => Err(String::from_str("No repo URL")),
                }
            } else {
                Err(String::from_str("No repo URL"))
            }
        },
    }
}

/// Whether a node has a target that configuration authors call `name`.
pub open spec fn provides(node: NodeModel, name: Seq<char>) -> bool {
    match node.wrapper {
        ProjectWrapper::PredefinedDependency(config) => match config.info() {
            FinalPredepInfo::Subdirectory(dep) => value_under(dep@.target_map, name) is Some,
            FinalPredepInfo::SystemProvided(dep) => strings_of(dep.target_names@).contains(name),
        },
        _ => node.targets.contains(name),
    }
}

/// Where targets are looked for: in all nodes of the tree with the root at
/// place `root`, or in the one node at place `node`.
pub ghost enum Scope {
    Tree { root: int },
    Node { node: int },
}

/// Whether the node at place `i` lies in `scope`.
pub open spec fn in_scope(nodes: Seq<NodeModel>, scope: Scope, i: int) -> bool {
    match scope {
        Scope::Tree { root } => nodes[i].root == root,
        Scope::Node { node } => i == node,
    }
}

/// The place of the first node from place `from` on that lies in `scope`
/// and has a target called `name`.
pub open spec fn provider_from(nodes: Seq<NodeModel>, scope: Scope, name: Seq<char>, from: int) -> Option<
    int,
>
    decreases nodes.len() - from,
{
    if !(0 <= from < nodes.len()) {
        None
    } else if in_scope(nodes, scope, from) && provides(nodes[from], name) {
        Some(from)
    } else {
        provider_from(nodes, scope, name, from + 1)
    }
}

/// The place of the first project from place `from` on that lies in the
/// tree with the root at place `root`, is not that root, and is called `name`.
pub open spec fn subproject_from(nodes: Seq<NodeModel>, root: int, name: Seq<char>, from: int) -> Option<
    int,
>
    decreases nodes.len() - from,
{
    if !(0 <= from < nodes.len()) {
        None
    } else if from != root && nodes[from].root == root && nodes[from].name == name {
        Some(from)
    } else {
        subproject_from(nodes, root, name, from + 1)
    }
}

/// The place of the first dependency of the node at place `owner`, from
/// place `from` on, that is called `name`.
pub open spec fn dependency_from(nodes: Seq<NodeModel>, owner: int, name: Seq<char>, from: int) -> Option<
    int,
>
    decreases nodes.len() - from,
{
    if !(0 <= from < nodes.len()) {
        None
    } else if nodes[from].parent == Some(owner) && !(nodes[from].wrapper is NormalProject)
        && nodes[from].name == name {
        Some(from)
    } else {
        dependency_from(nodes, owner, name, from + 1)
    }
}

/// Where the targets of the namespace `namespace` are looked for, seen
/// from the node at place `from`. `self` and the name of the root of the
/// tree stand for the whole tree; the name of a project of the tree stands
/// for that project; the name of a dependency of the root stands for the
/// tree of that dependency. Any other namespace is not recognized.
pub open spec fn namespace_scope(nodes: Seq<NodeModel>, from: int, namespace: Seq<char>) -> Option<
    Scope,
> {
    let root = nodes[from].root;
    if namespace == "self"@ || (0 <= root < nodes.len() && namespace == nodes[root].name) {
        Some(Scope::Tree { root })
    } else if subproject_from(nodes, root, namespace, 0) is Some {
        Some(Scope::Node { node: subproject_from(nodes, root, namespace, 0)->0 })
    } else if dependency_from(nodes, root, namespace, 0) is Some {
        Some(Scope::Tree { root: dependency_from(nodes, root, namespace, 0)->0 })
    } else {
        None
    }
}

/// The node that provides the target `name` in `scope`, with the name; or
/// the name alone where no node of the scope provides it.
pub open spec fn provider_of(nodes: Seq<NodeModel>, scope: Scope, name: Seq<char>) -> Result<
    (int, Seq<char>),
    Seq<char>,
> {
    match provider_from(nodes, scope, name, 0) {
        Some(node) => Ok((node, name)),
        None => Err(name),
    }
}

/// The providers of all of `names` in `scope`, or the first name that no
/// node of the scope provides.
pub open spec fn providers(nodes: Seq<NodeModel>, scope: Scope, names: Seq<Seq<char>>) -> Result<
    Seq<(int, Seq<char>)>,
    Seq<char>,
> {
    collect(names.map_values(|name: Seq<char>| provider_of(nodes, scope, name)))
}

/// What a link comes to in a tree.
pub ghost enum Resolution {
    /// Each target of the link, with the place of the node that provides it.
    Resolved(Seq<(int, Seq<char>)>),
    /// The link does not speak of this tree.
    NotMatched,
    /// The link names a namespace of this tree, but not a target of it.
    Refused(Seq<char>),
}

/// The message for a target that its namespace does not have.
pub open spec fn missing_target_message(namespace: Seq<char>, target: Seq<char>) -> Seq<char> {
    "\""@ + namespace + "\" has no target named \""@ + target + "\"."@
}

/// What the link `link`, written in the node at place `from`, comes to. A
/// link without namespace is looked for in the tree of that node alone,
/// and is not matched where a target is missing there. A link with a
/// namespace that is not recognized is not matched either; with one that
/// is recognized it is refused where the namespace lacks a target.
pub open spec fn resolution(nodes: Seq<NodeModel>, from: int, link: LinkModel) -> Resolution {
    match link.namespace {
        None => match providers(nodes, Scope::Tree { root: nodes[from].root }, link.targets) {
            Ok(found) => Resolution::Resolved(found),
            Err(_) => Resolution::NotMatched,
        },
        Some(namespace) => match namespace_scope(nodes, from, namespace) {
            None => Resolution::NotMatched,
            Some(scope) => match providers(nodes, scope, link.targets) {
                Ok(found) => Resolution::Resolved(found),
                Err(missing) => Resolution::Refused(missing_target_message(namespace, missing)),
            },
        },
    }
}

/// A target of a link, with the place of the node that provides it.
#[derive(Clone, Debug, PartialEq, Eq)]
pub struct ResolvedTarget {
    pub node: usize,
    pub target_name: String,
}

impl View for ResolvedTarget {
    type V = (int, Seq<char>);

    open spec fn view(&self) -> (int, Seq<char>) {
        (self.node as int, self.target_name@)
    }
}

/// Where targets are looked for.
#[derive(Clone, Copy, Debug)]
enum SearchScope {
    Tree(usize),
    Node(usize),
}

impl View for SearchScope {
    type V = Scope;

    closed spec fn view(&self) -> Scope {
        match self {
            Self::Tree(root) => Scope::Tree { root: *root as int },
            Self::Node(node) => Scope::Node { node: *node as int },
        }
    }
}

impl DependencyGraph {
    /// Whether the node at place `node` has a target called `name`.
    pub fn node_provides(&self, node: usize, name: &str) -> (r: bool)
        requires
            node < self@.len(),
        ensures
            r == provides(self@[node as int], name@),
    {
        match &self.nodes[node].wrapper {
            ProjectWrapper::PredefinedDependency(config) => match config.predefined_dep_info() {
                FinalPredepInfo::Subdirectory(dep) => dep.has_target_named(name),
                FinalPredepInfo::SystemProvided(dep) => list_contains(&dep.target_names, name),
            },
            _ => list_contains(&self.nodes[node].targets, name),
        }
    }

    /// The place of the first node of `scope` that has a target called `name`.
    fn find_provider(&self, scope: SearchScope, name: &str) -> (r: Option<usize>)
        ensures
            match r {
                Some(node) => node < self@.len() && provider_from(self@, scope@, name@, 0) == Some(node as int),
                None => provider_from(self@, scope@, name@, 0) is None,
            },
    {
        let mut i: usize = 0;
        while i < self.nodes.len()
            invariant
                i <= self.nodes@.len(),
                provider_from(self@, scope@, name@, 0) == provider_from(
                    self@,
                    scope@,
                    name@,
                    i as int,
                ),
            decreases self.nodes@.len() - i,
        {
            let inside = match scope {
                SearchScope::Tree(root) => self.nodes[i].root == root,
                SearchScope::Node(node) => i == node,
            };
            if inside && self.node_provides(i, name) {
                return Some(i);
            }
            i += 1;
        }
        None
    }

    /// The place of the first project of the tree with the root at place
    /// `root` that is not that root and is called `name`.
    fn find_tree_project(&self, root: usize, name: &str) -> (r: Option<usize>)
        ensures
            match r {
                Some(node) => node < self@.len() && subproject_from(self@, root as int, name@, 0) == Some(node as int),
                None => subproject_from(self@, root as int, name@, 0) is None,
            },
    {
        let mut i: usize = 0;
        while i < self.nodes.len()
            invariant
                i <= self.nodes@.len(),
                subproject_from(self@, root as int, name@, 0) == subproject_from(
                    self@,
                    root as int,
                    name@,
                    i as int,
                ),
            decreases self.nodes@.len() - i,
        {
            if i != root && self.nodes[i].root == root && str_equal(
                self.nodes[i].name.as_str(),
                name,
            ) {
                return Some(i);
            }
            i += 1;
        }
        None
    }

    /// The place of the first dependency of the node at place `owner` that is called `name`.
    pub fn find_dependency(&self, owner: usize, name: &str) -> (r: Option<usize>)
        ensures
            match r {
                Some(node) => node < self@.len() && dependency_from(self@, owner as int, name@, 0) == Some(node as int),
                None => dependency_from(self@, owner as int, name@, 0) is None,
            },
    {
        let mut i: usize = 0;
        while i < self.nodes.len()
            invariant
                i <= self.nodes@.len(),
                dependency_from(self@, owner as int, name@, 0) == dependency_from(
                    self@,
                    owner as int,
                    name@,
                    i as int,
                ),
            decreases self.nodes@.len() - i,
        {
            let is_child = match self.nodes[i].parent {
                Some(given) => given == owner,
                None => false,
            };
            let is_project = match &self.nodes[i].wrapper {
                ProjectWrapper::NormalProject(_) => true,
                _ => false,
            };
            if is_child && !is_project && str_equal(self.nodes[i].name.as_str(), name) {
                return Some(i);
            }
            i += 1;
        }
        None
    }

    /// The providers of all of `names` in `scope`, or the place in `names`
    /// of the first name that no node of the scope provides.
    fn find_providers(&self, scope: SearchScope, names: &Vec<String>) -> (r: Result<
        Vec<ResolvedTarget>,
        usize,
    >)
        ensures
            match providers(self@, scope@, strings_of(names@)) {
                Ok(found) => r matches Ok(given) && views(given@) == found,
                Err(missing) => r matches Err(at) && at < names@.len() && names@[at as int]@
                    == missing,
            },
    {
        let ghost results = strings_of(names@).map_values(
            |name: Seq<char>| provider_of(self@, scope@, name),
        );
        let mut found: Vec<ResolvedTarget> = Vec::new();
        let mut i: usize = 0;
        assert(results.take(0) =~= Seq::empty());
        assert(views(found@) =~= Seq::empty());
        while i < names.len()
            invariant
                i <= names@.len(),
                results == strings_of(names@).map_values(
                    |name: Seq<char>| provider_of(self@, scope@, name),
                ),
                collect(results.take(i as int)) == Ok::<Seq<(int, Seq<char>)>, Seq<char>>(
                    views(found@),
                ),
            decreases names@.len() - i,
        {
            proof {
                lemma_collect_push(results, i as int);
                assert(results[i as int] == provider_of(self@, scope@, names@[i as int]@));
            }
            match self.find_provider(scope, names[i].as_str()) {
                None => {
                    proof {
                        lemma_collect_error_stays(results, i + 1);
                    }
                    return Err(i);
                },
                Some(node) => {
                    let ghost before = views(found@);
                    found.push(ResolvedTarget { node, target_name: names[i].clone() });
                    assert(views(found@) =~= before.push((node as int, names@[i as int]@)));
                },
            }
            i += 1;
        }
        assert(results.take(i as int) =~= results);
        Ok(found)
    }

    /// Looks for the targets of `link`, which was written in the node at
    /// place `from`. `Ok(Some(_))`: each target with the node that provides
    /// it. `Ok(None)`: the link does not speak of this tree. `Err(_)`: the
    /// namespace of the link is one of this tree, but lacks a target.
    pub fn resolve_link(&self, from: usize, link: &LinkSpecifier) -> (r: Result<
        Option<Vec<ResolvedTarget>>,
        String,
    >)
        requires
            from < self@.len(),
        ensures
            match resolution(self@, from as int, link@) {
                Resolution::Resolved(found) => r matches Ok(Some(given)) && views(given@) == found,
                Resolution::NotMatched => r matches Ok(None),
                Resolution::Refused(message) => r matches Err(given) && given@ == message,
            },
    {
        let root = self.nodes[from].root;
        let names = link.get_target_names();
        match link.get_namespace() {
            None => match self.find_providers(SearchScope::Tree(root), names) {
                Ok(found) => Ok(Some(found)),
                Err(_) => Ok(None),
            },
            Some(namespace) => {
                let scope = if str_equal(namespace.as_str(), "self") || (root
                    < self.nodes.len() && str_equal(
                    namespace.as_str(),
                    self.nodes[root].name.as_str(),
                )) {
                    SearchScope::Tree(root)
                } else {
                    match self.find_tree_project(root, namespace.as_str()) {
                        Some(node) => SearchScope::Node(node),
                        None => match self.find_dependency(root, namespace.as_str()) {
                            Some(node) => SearchScope::Tree(node),
                            None => {
                                return Ok(None);
                            },
                        },
                    }
                };
                match self.find_providers(scope, names) {
                    Ok(found) => Ok(Some(found)),
                    Err(at) => Err(
                        message_with(
                            "\"",
                            namespace.as_str(),
                            "\" has no target named \"",
                            names[at].as_str(),
                            "\".",
                        ),
                    ),
                }
            },
        }
    }
}

} // verus!
