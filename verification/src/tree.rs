//! The command tree: groups, leaves and the parameters a leaf declares.

use vstd::prelude::*;

verus! {

/// The type a parameter is declared with.
#[derive(Clone, Copy, Debug, PartialEq, Eq, Structural)]
pub enum ParamType {
    Text,
    Integer,
    Boolean,
    Enumeration,
}

/// A value of one of the declared types. A member of an enumeration is held
/// as `Text`.
#[derive(Debug, PartialEq, Eq)]
pub enum ParamValue {
    Text(String),
    Integer(i64),
    Boolean(bool),
}

/// What a `ParamValue` stands for.
pub enum ValueModel {
    Text(Seq<char>),
    Integer(int),
    Boolean(bool),
}

impl View for ParamValue {
    type V = ValueModel;

    open spec fn view(&self) -> ValueModel {
        match self {
            ParamValue::Text(s) => ValueModel::Text(s@),
            ParamValue::Integer(n) => ValueModel::Integer(*n as int),
            ParamValue::Boolean(b) => ValueModel::Boolean(*b),
        }
    }
}

impl Clone for ParamValue {
    fn clone(&self) -> (r: Self)
        ensures
            r == *self,
    {
        match self {
            ParamValue::Text(s) => ParamValue::Text(s.clone()),
            ParamValue::Integer(n) => ParamValue::Integer(*n),
            ParamValue::Boolean(b) => ParamValue::Boolean(*b),
        }
    }
}

/// Whether a node groups other nodes or stands for one executable.
#[derive(Clone, Copy, Debug, PartialEq, Eq, Structural)]
pub enum NodeKind {
    Group,
    Leaf,
}

/// One declared parameter of a leaf.
#[derive(Debug, PartialEq, Eq)]
pub struct ParamDecl {
    pub name: String,
    pub kind: ParamType,
    pub required: bool,
    pub default: Option<ParamValue>,
    pub allowed: Vec<String>,
}

/// What a `ParamDecl` stands for.
pub struct ParamModel {
    pub name: Seq<char>,
    pub kind: ParamType,
    pub required: bool,
    pub default: Option<ValueModel>,
    pub allowed: Seq<Seq<char>>,
}

/// The texts that a sequence of strings holds.
pub open spec fn texts(items: Seq<String>) -> Seq<Seq<char>> {
    Seq::new(items.len(), |i: int| items[i]@)
}

/// What a sequence of parameter declarations stands for.
pub open spec fn param_models(params: Seq<ParamDecl>) -> Seq<ParamModel> {
    Seq::new(params.len(), |i: int| params[i]@)
}

impl View for ParamDecl {
    type V = ParamModel;

    open spec fn view(&self) -> ParamModel {
        ParamModel {
            name: self.name@,
            kind: self.kind,
            required: self.required,
            default: match self.default {
                Some(d) => Some(d@),
                None => None,
            },
            allowed: texts(self.allowed@),
        }
    }
}

impl ParamModel {
    /// Whether `value` is a value of the declared type; for an enumeration,
    /// whether it is one of the allowed values.
    pub open spec fn accepts(&self, value: ValueModel) -> bool {
        match self.kind {
            ParamType::Text => value is Text,
            ParamType::Integer => value is Integer,
            ParamType::Boolean => value is Boolean,
            ParamType::Enumeration => value is Text && self.allowed.contains(value->Text_0),
        }
    }

    /// A declaration is well formed when it has a name, an enumeration has at
    /// least one allowed value, an optional parameter has a default, and a
    /// default is a value that the declaration accepts.
    pub open spec fn well_formed(&self) -> bool {
        &&& self.name.len() > 0
        &&& self.kind == ParamType::Enumeration ==> self.allowed.len() > 0
        &&& !self.required ==> self.default is Some
        &&& self.default matches Some(d) ==> self.accepts(d)
    }
}

/// No two declarations of `params` share a name.
pub open spec fn distinct_parameters(params: Seq<ParamModel>) -> bool {
    forall|i: int, j: int| 0 <= i < j < params.len() ==> params[i].name != params[j].name
}

/// Every declaration of `params` is well formed, and no two share a name.
pub open spec fn well_formed_parameters(params: Seq<ParamModel>) -> bool {
    &&& distinct_parameters(params)
    &&& forall|i: int| 0 <= i < params.len() ==> (#[trigger] params[i]).well_formed()
}

/// A node of the command tree.
#[derive(Debug)]
pub struct CommandNode {
    pub name: String,
    pub kind: NodeKind,
    pub description: Option<String>,
    pub children: Vec<CommandNode>,
    pub parameters: Vec<ParamDecl>,
    pub executable_path: Option<String>,
}

/// A name that a path segment can select: not empty, and neither of the two
/// segments that path normalization treats specially.
pub open spec fn selectable(name: Seq<char>) -> bool {
    name.len() > 0 && name != seq!['.'] && name != seq!['.', '.']
}

/// What a `CommandNode` stands for.
pub struct NodeModel {
    pub name: Seq<char>,
    pub kind: NodeKind,
    pub description: Option<Seq<char>>,
    pub children: Seq<NodeModel>,
    pub parameters: Seq<ParamModel>,
    pub executable_path: Option<Seq<char>>,
}

/// The text that an optional string holds.
pub open spec fn option_text(text: Option<String>) -> Option<Seq<char>> {
    match text {
        Some(s) => Some(s@),
        None => None,
    }
}

/// What the node `node` stands for, with all that is below it.
pub open spec fn node_model(node: CommandNode) -> NodeModel
    decreases node,
{
    NodeModel {
        name: node.name@,
        kind: node.kind,
        description: option_text(node.description),
        children: Seq::new(
            node.children@.len(),
            |i: int|
                if 0 <= i < node.children@.len() {
                    node_model(node.children@[i])
                } else {
                    arbitrary()
                },
        ),
        parameters: param_models(node.parameters@),
        executable_path: option_text(node.executable_path),
    }
}

impl View for CommandNode {
    type V = NodeModel;

    open spec fn view(&self) -> NodeModel {
        node_model(*self)
    }
}

/// No two nodes of `nodes` share a name.
pub open spec fn distinct_siblings(nodes: Seq<NodeModel>) -> bool {
    forall|i: int, j: int| 0 <= i < j < nodes.len() ==> nodes[i].name != nodes[j].name
}

impl NodeModel {
    pub open spec fn is_leaf(&self) -> bool {
        self.kind == NodeKind::Leaf
    }

    /// The invariant of a tree: every node is named by a selectable segment,
    /// siblings differ in name, a group has no executable and no parameters,
    /// a leaf has an executable and no children, and a leaf's parameters are
    /// well formed and differ in name.
    pub open spec fn well_formed(&self) -> bool
        decreases self,
    {
        &&& selectable(self.name)
        &&& self.kind == NodeKind::Group ==> self.executable_path is None
            && self.parameters.len() == 0
        &&& self.kind == NodeKind::Leaf ==> self.executable_path is Some
            && self.children.len() == 0
        &&& distinct_siblings(self.children)
        &&& well_formed_parameters(self.parameters)
        &&& forall|i: int|
            0 <= i < self.children.len() ==> (#[trigger] self.children[i]).well_formed()
    }
}

impl CommandNode {
    /// The children of a node stand for the children of what it stands for.
    pub proof fn lemma_view_children(&self)
        ensures
            self@.children.len() == self.children@.len(),
            forall|i: int|
                0 <= i < self.children@.len() ==> (#[trigger] self@.children[i])
                    == self.children@[i]@,
            self@.parameters == param_models(self.parameters@),
            self@.name == self.name@,
            self@.kind == self.kind,
            self@.description == option_text(self.description),
            self@.executable_path == option_text(self.executable_path),
    {
    }
}

} // verus!
