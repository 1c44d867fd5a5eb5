//! Auditing a tree that was put together by hand: whether it keeps the
//! invariant that a built tree has.

use crate::loader::name_is_selectable;
use crate::tree::{
    distinct_parameters, distinct_siblings, param_models, well_formed_parameters, CommandNode,
    NodeKind, ParamDecl, ParamType, ParamValue,
};
use crate::validate::contains_text;
use vstd::prelude::*;

verus! {

/// Whether `decl` accepts `value`.
pub fn accepts_value(decl: &ParamDecl, value: &ParamValue) -> (r: bool)
    ensures
        r == decl@.accepts(value@),
{
    match decl.kind {
        ParamType::Text => match value {
            ParamValue::Text(_) => true,
            _ => false,
        },
        ParamType::Integer => match value {
            ParamValue::Integer(_) => true,
            _ => false,
        },
        ParamType::Boolean => match value {
            ParamValue::Boolean(_) => true,
            _ => false,
        },
        ParamType::Enumeration => match value {
            ParamValue::Text(s) => contains_text(&decl.allowed, s),
            _ => false,
        },
    }
}

/// Whether `decl` is well formed.
pub fn parameter_is_well_formed(decl: &ParamDecl) -> (r: bool)
    ensures
        r == decl@.well_formed(),
{
    if decl.name.as_str().unicode_len() == 0 {
        return false;
    }
    if decl.kind == ParamType::Enumeration && decl.allowed.len() == 0 {
        return false;
    }
    match &decl.default {
        None => decl.required,
        Some(d) => accepts_value(decl, d),
    }
}

/// Whether none of the first `upto` of `params` is named as the one at
/// `upto`.
fn parameter_name_is_new(params: &Vec<ParamDecl>, upto: usize) -> (r: bool)
    requires
        upto < params@.len(),
    ensures
        r == forall|k: int| 0 <= k < upto ==> (#[trigger] params@[k]).name@ != params@[upto as int].name@,
{
    let mut k: usize = 0;
    while k < upto
        invariant
            k <= upto < params@.len(),
            forall|m: int| 0 <= m < k ==> (#[trigger] params@[m]).name@ != params@[upto as int].name@,
        decreases upto - k,
    {
        if params[k].name == params[upto].name {
            return false;
        }
        k = k + 1;
    }
    true
}

/// Whether the declarations of `params` are well formed and differ in name.
pub fn parameters_are_well_formed(params: &Vec<ParamDecl>) -> (r: bool)
    ensures
        r == well_formed_parameters(param_models(params@)),
{
    let ghost models = param_models(params@);
    let mut i: usize = 0;
    while i < params.len()
        invariant
            i <= params@.len(),
            models == param_models(params@),
            forall|k: int| 0 <= k < i ==> (#[trigger] models[k]).well_formed(),
            forall|a: int, b: int| 0 <= a < b < i ==> models[a].name != models[b].name,
        decreases params@.len() - i,
    {
        assert(models[i as int] == params@[i as int]@);
        if !parameter_is_well_formed(&params[i]) {
            return false;
        }
        if !parameter_name_is_new(params, i) {
            proof {
                let k = choose|k: int|
                    0 <= k < i && (#[trigger] params@[k]).name@ == params@[i as int].name@;
                assert(models[k].name == models[i as int].name);
                assert(!distinct_parameters(models));
            }
            return false;
        }
        proof {
            assert forall|a: int, b: int| 0 <= a < b < i + 1 implies models[a].name
                != models[b].name by {
                if b == i {
                    assert(params@[a].name@ != params@[i as int].name@);
                }
            }
        }
        i = i + 1;
    }
    true
}

/// Whether none of the first `upto` of `nodes` is named as the one at
/// `upto`.
fn node_name_is_new(nodes: &Vec<CommandNode>, upto: usize) -> (r: bool)
    requires
        upto < nodes@.len(),
    ensures
        r == forall|k: int| 0 <= k < upto ==> (#[trigger] nodes@[k]).name@ != nodes@[upto as int].name@,
{
    let mut k: usize = 0;
    while k < upto
        invariant
            k <= upto < nodes@.len(),
            forall|m: int| 0 <= m < k ==> (#[trigger] nodes@[m]).name@ != nodes@[upto as int].name@,
        decreases upto - k,
    {
        if nodes[k].name == nodes[upto].name {
            return false;
        }
        k = k + 1;
    }
    true
}

/// Whether the tree below `node` keeps the invariant of a tree.
pub fn is_well_formed(node: &CommandNode) -> (r: bool)
    ensures
        r == node@.well_formed(),
    decreases node,
{
    proof {
        node.lemma_view_children();
    }
    if !name_is_selectable(&node.name) {
        return false;
    }
    match node.kind {
        NodeKind::Group => {
            if node.executable_path.is_some() || node.parameters.len() != 0 {
                return false;
            }
        },
        NodeKind::Leaf => {
            if node.executable_path.is_none() || node.children.len() != 0 {
                return false;
            }
        },
    }
    if !parameters_are_well_formed(&node.parameters) {
        return false;
    }
    let ghost children = node@.children;
    let mut i: usize = 0;
    while i < node.children.len()
        invariant
            i <= node.children@.len(),
            children == node@.children,
            children.len() == node.children@.len(),
            forall|k: int|
                0 <= k < node.children@.len() ==> (#[trigger] children[k]) == node.children@[k]@,
            forall|k: int| 0 <= k < i ==> (#[trigger] children[k]).well_formed(),
            forall|a: int, b: int| 0 <= a < b < i ==> children[a].name != children[b].name,
        decreases node.children@.len() - i,
    {
        proof {
            node.children@[i as int].lemma_view_children();
        }
        if !is_well_formed(&node.children[i]) {
            assert(!children[i as int].well_formed());
            return false;
        }
        if !node_name_is_new(&node.children, i) {
            proof {
                let k = choose|k: int|
                    0 <= k < i && (#[trigger] node.children@[k]).name@
                        == node.children@[i as int].name@;
                node.children@[k].lemma_view_children();
                assert(children[k].name == children[i as int].name);
                assert(!distinct_siblings(children));
            }
            return false;
        }
        proof {
            assert forall|a: int, b: int| 0 <= a < b < i + 1 implies children[a].name
                != children[b].name by {
                if b == i {
                    node.children@[a].lemma_view_children();
                    assert(node.children@[a].name@ != node.children@[i as int].name@);
                }
            }
        }
        i = i + 1;
    }
    true
}

} // verus!
