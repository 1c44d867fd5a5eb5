//! Path resolution: from a sequence of segments to the leaf it names.

use crate::tree::{texts, CommandNode, NodeKind, NodeModel};
use vstd::prelude::*;

verus! {

/// Why a path names no leaf.
#[derive(Debug, PartialEq, Eq)]
pub enum ResolveError {
    /// The path left the tree, stopped at a group or held a `..`; `matched`
    /// holds the segments that selected a node before that.
    NotFound { matched: Vec<String> },
}

/// A segment that normalization drops: the empty one and `.`.
pub open spec fn is_skipped(segment: Seq<char>) -> bool {
    segment.len() == 0 || segment == seq!['.']
}

/// The segment `..`, which no path may hold.
pub open spec fn is_parent(segment: Seq<char>) -> bool {
    segment == seq!['.', '.']
}

/// The first node of `children`, at index `from` or later, that is named
/// `name`.
pub open spec fn child_from(children: Seq<NodeModel>, name: Seq<char>, from: int) -> Option<
    NodeModel,
>
    decreases children.len() - from,
{
    if from < 0 || from >= children.len() {
        None
    } else if children[from].name == name {
        Some(children[from])
    } else {
        child_from(children, name, from + 1)
    }
}

/// The first node of `children` that is named `name`.
pub open spec fn child_named(children: Seq<NodeModel>, name: Seq<char>) -> Option<NodeModel> {
    child_from(children, name, 0)
}

/// Resolution of the segments from index `from` on, standing at `node`, after
/// the segments in `matched` have each selected a node.
pub open spec fn resolution_from(
    node: NodeModel,
    segments: Seq<Seq<char>>,
    from: int,
    matched: Seq<Seq<char>>,
) -> Result<NodeModel, Seq<Seq<char>>>
    decreases segments.len() - from,
{
    if from < 0 || from >= segments.len() {
        if node.is_leaf() {
            Ok(node)
        } else {
            Err(matched)
        }
    } else if is_skipped(segments[from]) {
        resolution_from(node, segments, from + 1, matched)
    } else if is_parent(segments[from]) {
        Err(matched)
    } else {
        match child_named(node.children, segments[from]) {
            Some(child) => resolution_from(child, segments, from + 1, matched.push(segments[from])),
            None => Err(matched),
        }
    }
}

/// What `segments` resolves to under `root`: the leaf that they name, or the
/// longest prefix of selecting segments that matched.
pub open spec fn resolution(root: NodeModel, segments: Seq<Seq<char>>) -> Result<
    NodeModel,
    Seq<Seq<char>>,
> {
    resolution_from(root, segments, 0, Seq::empty())
}

/// Whether `segment` is dropped by normalization.
pub fn segment_is_skipped(segment: &String) -> (r: bool)
    ensures
        r == is_skipped(segment@),
{
    let s = segment.as_str();
    let n: usize = s.unicode_len();
    if n == 0 {
        true
    } else if n == 1 {
        let c = s.get_char(0);
        proof {
            assert(c == '.' ==> segment@ =~= seq!['.']);
            assert(c != '.' ==> segment@[0] != seq!['.'][0]);
        }
        c == '.'
    } else {
        false
    }
}

/// Whether `segment` is `..`.
pub fn segment_is_parent(segment: &String) -> (r: bool)
    ensures
        r == is_parent(segment@),
{
    let s = segment.as_str();
    let n: usize = s.unicode_len();
    if n == 2 {
        let a = s.get_char(0);
        let b = s.get_char(1);
        proof {
            assert(a == '.' && b == '.' ==> segment@ =~= seq!['.', '.']);
            assert(a != '.' ==> segment@[0] != seq!['.', '.'][0]);
            assert(b != '.' ==> segment@[1] != seq!['.', '.'][1]);
        }
        a == '.' && b == '.'
    } else {
        false
    }
}

/// The child of `node` that is named `name`, if there is one.
pub fn find_child<'a>(node: &'a CommandNode, name: &String) -> (r: Option<&'a CommandNode>)
    ensures
        match r {
            Some(child) => child_named(node@.children, name@) == Some(child@),
            None => child_named(node@.children, name@) is None,
        },
{
    let mut i: usize = 0;
    proof {
        node.lemma_view_children();
    }
    while i < node.children.len()
        invariant
            i <= node.children@.len(),
            node@.children.len() == node.children@.len(),
            forall|k: int|
                0 <= k < node.children@.len() ==> (#[trigger] node@.children[k])
                    == node.children@[k]@,
            child_named(node@.children, name@) == child_from(node@.children, name@, i as int),
        decreases node.children@.len() - i,
    {
        proof {
            node.children@[i as int].lemma_view_children();
        }
        if node.children[i].name == *name {
            return Some(&node.children[i]);
        }
        i = i + 1;
    }
    None
}

/// Resolves `segments` under `root`, one segment at a time and by exact
/// comparison with the names of the children. Empty segments and `.` are
/// dropped. The result is the leaf that the path ends at. A path that holds
/// `..`, that selects a name that is not there, or that ends at a group is
/// not found, and the error holds the selecting segments that matched.
pub fn resolve<'a>(root: &'a CommandNode, segments: &Vec<String>) -> (r: Result<
    &'a CommandNode,
    ResolveError,
>)
    ensures
        match resolution(root@, texts(segments@)) {
            Ok(leaf) => r matches Ok(found) && found@ == leaf,
            Err(prefix) => r matches Err(ResolveError::NotFound { matched }) && texts(matched@)
                == prefix,
        },
{
    let mut node: &'a CommandNode = root;
    let mut matched: Vec<String> = Vec::new();
    let mut i: usize = 0;
    proof {
        assert(texts(matched@) =~= Seq::<Seq<char>>::empty());
    }
    while i < segments.len()
        invariant
            i <= segments@.len(),
            resolution(root@, texts(segments@)) == resolution_from(
                node@,
                texts(segments@),
                i as int,
                texts(matched@),
            ),
        decreases segments@.len() - i,
    {
        let segment = &segments[i];
        assert(texts(segments@)[i as int] == segment@);
        if segment_is_skipped(segment) {
        } else if segment_is_parent(segment) {
            return Err(ResolveError::NotFound { matched });
        } else {
            match find_child(node, segment) {
                Some(child) => {
                    let ghost before = texts(matched@);
                    matched.push(segment.clone());
                    proof {
                        assert(texts(matched@) =~= before.push(segment@));
                    }
                    node = child;
                },
                None => {
                    return Err(ResolveError::NotFound { matched });
                },
            }
        }
        i = i + 1;
    }
    proof {
        node.lemma_view_children();
    }
    match node.kind {
        NodeKind::Leaf => Ok(node),
        NodeKind::Group => Err(ResolveError::NotFound { matched }),
    }
}

/// The node reached from `node` by selecting, for each segment of `path` from
/// index `from` on, the child of that name.
pub open spec fn descend_from(node: NodeModel, path: Seq<Seq<char>>, from: int) -> Option<
    NodeModel,
>
    decreases path.len() - from,
{
    if from < 0 || from >= path.len() {
        Some(node)
    } else {
        match child_named(node.children, path[from]) {
            Some(child) => descend_from(child, path, from + 1),
            None => None,
        }
    }
}

/// The node that `path` names under `root`, each segment being the name of a
/// child of the node before it.
pub open spec fn descend(root: NodeModel, path: Seq<Seq<char>>) -> Option<NodeModel> {
    descend_from(root, path, 0)
}

/// A child found by name is one of the children and has that name.
pub proof fn lemma_child_from_is_member(children: Seq<NodeModel>, name: Seq<char>, from: int)
    requires
        0 <= from,
    ensures
        match child_from(children, name, from) {
            Some(child) => child.name == name && exists|k: int|
                from <= k < children.len() && children[k] == child,
            None => forall|k: int| from <= k < children.len() ==> children[k].name != name,
        },
    decreases children.len() - from,
{
    if from < children.len() && children[from].name != name {
        lemma_child_from_is_member(children, name, from + 1);
    }
}

proof fn lemma_resolution_along_path(
    node: NodeModel,
    path: Seq<Seq<char>>,
    from: int,
    matched: Seq<Seq<char>>,
)
    requires
        node.well_formed(),
        0 <= from <= path.len(),
        descend_from(node, path, from) is Some,
    ensures
        descend_from(node, path, from)->0.well_formed(),
        resolution_from(node, path, from, matched) == (if descend_from(node, path, from)->0.is_leaf() {
            Ok::<NodeModel, Seq<Seq<char>>>(descend_from(node, path, from)->0)
        } else {
            Err::<NodeModel, Seq<Seq<char>>>(matched + path.subrange(from, path.len() as int))
        }),
    decreases path.len() - from,
{
    if from < path.len() {
        let child = child_named(node.children, path[from])->0;
        lemma_child_from_is_member(node.children, path[from], 0);
        assert(child.well_formed());
        lemma_resolution_along_path(child, path, from + 1, matched.push(path[from]));
        assert(matched.push(path[from]) + path.subrange(from + 1, path.len() as int) =~= matched
            + path.subrange(from, path.len() as int));
    } else {
        assert(matched + path.subrange(from, path.len() as int) =~= matched);
    }
}

proof fn lemma_resolution_past_leaf(
    node: NodeModel,
    path: Seq<Seq<char>>,
    extra: Seq<char>,
    from: int,
    matched: Seq<Seq<char>>,
)
    requires
        node.well_formed(),
        0 <= from <= path.len(),
        descend_from(node, path, from) matches Some(leaf) && leaf.is_leaf(),
        !is_skipped(extra),
    ensures
        resolution_from(node, path.push(extra), from, matched) == Err::<
            NodeModel,
            Seq<Seq<char>>,
        >(matched + path.subrange(from, path.len() as int)),
    decreases path.len() - from,
{
    let longer = path.push(extra);
    if from < path.len() {
        assert(longer[from] == path[from]);
        let child = child_named(node.children, path[from])->0;
        lemma_child_from_is_member(node.children, path[from], 0);
        assert(child.well_formed());
        lemma_resolution_past_leaf(child, path, extra, from + 1, matched.push(path[from]));
        assert(matched.push(path[from]) + path.subrange(from + 1, path.len() as int) =~= matched
            + path.subrange(from, path.len() as int));
    } else {
        assert(longer[from] == extra);
        assert(node.children.len() == 0);
        assert(matched + path.subrange(from, path.len() as int) =~= matched);
    }
}

/// The exact sequence of names that leads from the root of a well-formed
/// tree to a leaf resolves to that leaf.
pub proof fn lemma_leaf_path_resolves(root: NodeModel, path: Seq<Seq<char>>)
    requires
        root.well_formed(),
        descend(root, path) matches Some(leaf) && leaf.is_leaf(),
    ensures
        resolution(root, path) == Ok::<NodeModel, Seq<Seq<char>>>(descend(root, path)->0),
{
    lemma_resolution_along_path(root, path, 0, Seq::empty());
}

/// A leaf's path with one more segment behind it, other than a segment that
/// normalization drops, is not found, and the leaf's path is what matched.
pub proof fn lemma_path_past_leaf_fails(root: NodeModel, path: Seq<Seq<char>>, extra: Seq<char>)
    requires
        root.well_formed(),
        descend(root, path) matches Some(leaf) && leaf.is_leaf(),
        !is_skipped(extra),
    ensures
        resolution(root, path.push(extra)) == Err::<NodeModel, Seq<Seq<char>>>(path),
{
    lemma_resolution_past_leaf(root, path, extra, 0, Seq::empty());
    assert(Seq::<Seq<char>>::empty() + path.subrange(0, path.len() as int) =~= path);
}

/// The path of a group is not found, and the whole of it is what matched.
pub proof fn lemma_group_path_fails(root: NodeModel, path: Seq<Seq<char>>)
    requires
        root.well_formed(),
        descend(root, path) matches Some(group) && !group.is_leaf(),
    ensures
        resolution(root, path) == Err::<NodeModel, Seq<Seq<char>>>(path),
{
    lemma_resolution_along_path(root, path, 0, Seq::empty());
    assert(Seq::<Seq<char>>::empty() + path.subrange(0, path.len() as int) =~= path);
}

proof fn lemma_descend_one_more(node: NodeModel, path: Seq<Seq<char>>, from: int, next: Seq<char>)
    requires
        0 <= from <= path.len(),
    ensures
        descend_from(node, path.push(next), from) == match descend_from(node, path, from) {
            Some(reached) => child_named(reached.children, next),
            None => None,
        },
    decreases path.len() - from,
{
    let longer = path.push(next);
    if from < path.len() {
        assert(longer[from] == path[from]);
        match child_named(node.children, path[from]) {
            Some(child) => {
                lemma_descend_one_more(child, path, from + 1, next);
            },
            None => {},
        }
    } else {
        assert(longer[from] == next);
        match child_named(node.children, next) {
            Some(child) => {
                assert(descend_from(child, longer, from + 1) == Some(child));
            },
            None => {},
        }
    }
}

proof fn lemma_matched_from(
    root: NodeModel,
    node: NodeModel,
    segments: Seq<Seq<char>>,
    from: int,
    matched: Seq<Seq<char>>,
)
    requires
        descend(root, matched) == Some(node),
    ensures
        match resolution_from(node, segments, from, matched) {
            Ok(leaf) => true,
            Err(prefix) => descend(root, prefix) is Some,
        },
    decreases segments.len() - from,
{
    if 0 <= from < segments.len() {
        if is_skipped(segments[from]) {
            lemma_matched_from(root, node, segments, from + 1, matched);
        } else if !is_parent(segments[from]) {
            match child_named(node.children, segments[from]) {
                Some(child) => {
                    lemma_descend_one_more(root, matched, 0, segments[from]);
                    lemma_matched_from(
                        root,
                        child,
                        segments,
                        from + 1,
                        matched.push(segments[from]),
                    );
                },
                None => {},
            }
        }
    }
}

/// What a failed resolution reports as matched is the path of a node of the
/// tree.
pub proof fn lemma_matched_names_a_node(root: NodeModel, segments: Seq<Seq<char>>)
    requires
        resolution(root, segments) is Err,
    ensures
        descend(root, resolution(root, segments)->Err_0) is Some,
{
    lemma_matched_from(root, root, segments, 0, Seq::empty());
}

/// Resolution never ends at a group.
pub proof fn lemma_resolution_ends_at_leaf(
    node: NodeModel,
    segments: Seq<Seq<char>>,
    from: int,
    matched: Seq<Seq<char>>,
)
    ensures
        resolution_from(node, segments, from, matched) matches Ok(leaf) ==> leaf.is_leaf(),
    decreases segments.len() - from,
{
    if 0 <= from < segments.len() {
        if is_skipped(segments[from]) {
            lemma_resolution_ends_at_leaf(node, segments, from + 1, matched);
        } else if !is_parent(segments[from]) {
            match child_named(node.children, segments[from]) {
                Some(child) => {
                    lemma_resolution_ends_at_leaf(
                        child,
                        segments,
                        from + 1,
                        matched.push(segments[from]),
                    );
                },
                None => {},
            }
        }
    }
}

/// The first `upto` segments of `path` written out, each with `/` before it.
pub open spec fn path_text_upto(path: Seq<Seq<char>>, upto: int) -> Seq<char>
    decreases upto,
{
    if upto <= 0 || upto > path.len() {
        Seq::empty()
    } else {
        path_text_upto(path, upto - 1) + "/"@ + path[upto - 1]
    }
}

/// A path written out: each segment with `/` before it.
pub open spec fn path_text(path: Seq<Seq<char>>) -> Seq<char> {
    path_text_upto(path, path.len() as int)
}

impl ResolveError {
    /// The message of the error: that no command was found, and the path
    /// that matched.
    pub open spec fn message_text(&self) -> Seq<char> {
        match self {
            ResolveError::NotFound { matched } => "command not found below "@ + path_text(
                texts(matched@),
            ),
        }
    }

    /// The message of the error.
    pub fn message(&self) -> (text: String)
        ensures
            text@ == self.message_text(),
    {
        match self {
            ResolveError::NotFound { matched } => {
                let mut text = String::from_str("command not found below ");
                let mut i: usize = 0;
                proof {
                    assert(text@ =~= "command not found below "@ + path_text_upto(
                        texts(matched@),
                        0,
                    ));
                }
                while i < matched.len()
                    invariant
                        i <= matched@.len(),
                        text@ == "command not found below "@ + path_text_upto(
                            texts(matched@),
                            i as int,
                        ),
                    decreases matched@.len() - i,
                {
                    text.append("/");
                    text.append(matched[i].as_str());
                    proof {
                        assert(texts(matched@)[i as int] == matched@[i as int]@);
                        assert(text@ =~= "command not found below "@ + path_text_upto(
                            texts(matched@),
                            i as int + 1,
                        ));
                    }
                    i = i + 1;
                }
                text
            },
        }
    }
}

} // verus!
