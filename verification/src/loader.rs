//! Building the command tree from what a scan of the root directory found.

use crate::resolve::{segment_is_parent, segment_is_skipped};
use crate::text::joined;
use crate::tree::{
    option_text, param_models, selectable, texts, well_formed_parameters, CommandNode, NodeKind,
    NodeModel, ParamDecl, ParamModel, ParamType,
};
use crate::validate::{coerce, coercion, RawModel, RawValue};
use vstd::prelude::*;

verus! {

/// A parameter as a leaf's declaration file states it.
#[derive(Debug, PartialEq, Eq)]
pub struct RawParam {
    pub name: String,
    pub type_tag: String,
    pub required: bool,
    pub default: Option<RawValue>,
    pub allowed: Vec<String>,
}

/// What a `RawParam` stands for.
pub struct RawParamModel {
    pub name: Seq<char>,
    pub type_tag: Seq<char>,
    pub required: bool,
    pub default: Option<RawModel>,
    pub allowed: Seq<Seq<char>>,
}

impl View for RawParam {
    type V = RawParamModel;

    open spec fn view(&self) -> RawParamModel {
        RawParamModel {
            name: self.name@,
            type_tag: self.type_tag@,
            required: self.required,
            default: match self.default {
                Some(d) => Some(d@),
                None => None,
            },
            allowed: texts(self.allowed@),
        }
    }
}

/// What a sequence of stated parameters stands for.
pub open spec fn raw_param_models(params: Seq<RawParam>) -> Seq<RawParamModel> {
    Seq::new(params.len(), |i: int| params[i]@)
}

/// What is wrong with a stated parameter.
#[derive(Clone, Copy, Debug, PartialEq, Eq, Structural)]
pub enum SchemaFault {
    /// The parameter has no name.
    Unnamed,
    /// The type tag is none of `string`, `integer`, `boolean`, `enumeration`.
    UnknownType,
    /// An enumeration allows no value.
    EmptyEnumeration,
    /// The default is no value of the declared type.
    BadDefault,
    /// The parameter is optional and has no default.
    MissingDefault,
    /// An earlier parameter of the leaf has the same name.
    DuplicateParameter,
}

/// What a scan found at one place of the directory tree: a directory with
/// what it holds, or an executable file with what was declared for it.
#[derive(Debug)]
pub enum Scanned {
    Directory { name: String, description: Option<String>, entries: Vec<Scanned> },
    Executable {
        name: String,
        path: String,
        description: Option<String>,
        parameters: Vec<RawParam>,
    },
}

/// What a `Scanned` stands for.
pub enum ScannedModel {
    Directory { name: Seq<char>, description: Option<Seq<char>>, entries: Seq<ScannedModel> },
    Executable {
        name: Seq<char>,
        path: Seq<char>,
        description: Option<Seq<char>>,
        parameters: Seq<RawParamModel>,
    },
}

/// What `entry` stands for, with all that it holds.
pub open spec fn scanned_model(entry: Scanned) -> ScannedModel
    decreases entry,
{
    match entry {
        Scanned::Directory { name, description, entries } => ScannedModel::Directory {
            name: name@,
            description: option_text(description),
            entries: Seq::new(
                entries@.len(),
                |i: int|
                    if 0 <= i < entries@.len() {
                        scanned_model(entries@[i])
                    } else {
                        arbitrary()
                    },
            ),
        },
        Scanned::Executable { name, path, description, parameters } => ScannedModel::Executable {
            name: name@,
            path: path@,
            description: option_text(description),
            parameters: raw_param_models(parameters@),
        },
    }
}

impl View for Scanned {
    type V = ScannedModel;

    open spec fn view(&self) -> ScannedModel {
        scanned_model(*self)
    }
}

impl ScannedModel {
    pub open spec fn name(&self) -> Seq<char> {
        match self {
            ScannedModel::Directory { name, .. } => *name,
            ScannedModel::Executable { name, .. } => *name,
        }
    }

    /// The number of entries that a directory holds; none for a file.
    pub open spec fn breadth(&self) -> int {
        match self {
            ScannedModel::Directory { entries, .. } => entries.len() as int,
            ScannedModel::Executable { .. } => 0,
        }
    }

    /// The entries that a directory holds; none for a file.
    pub open spec fn entries(&self) -> Seq<ScannedModel> {
        match self {
            ScannedModel::Directory { entries, .. } => *entries,
            ScannedModel::Executable { .. } => Seq::empty(),
        }
    }
}

/// Why no tree could be built.
#[derive(Debug, PartialEq, Eq)]
pub enum LoadError {
    /// The scan itself failed; `message` is what it reported.
    Io { message: String },
    /// Two entries of one directory are called `name`.
    DuplicateName { name: String },
    /// The parameter `parameter` of the leaf `leaf` is malformed.
    InvalidSchema { leaf: String, parameter: String, reason: SchemaFault },
    /// An entry is called `name`, which no path segment can select.
    InvalidName { name: String },
}

/// What a `LoadError` stands for.
pub enum LoadFault {
    Io(Seq<char>),
    DuplicateName(Seq<char>),
    InvalidSchema { leaf: Seq<char>, parameter: Seq<char>, reason: SchemaFault },
    InvalidName(Seq<char>),
}

impl View for LoadError {
    type V = LoadFault;

    open spec fn view(&self) -> LoadFault {
        match self {
            LoadError::Io { message } => LoadFault::Io(message@),
            LoadError::DuplicateName { name } => LoadFault::DuplicateName(name@),
            LoadError::InvalidSchema { leaf, parameter, reason } => LoadFault::InvalidSchema {
                leaf: leaf@,
                parameter: parameter@,
                reason: *reason,
            },
            LoadError::InvalidName { name } => LoadFault::InvalidName(name@),
        }
    }
}

/// The type that a tag names.
pub open spec fn tag_type(tag: Seq<char>) -> Option<ParamType> {
    if tag == "string"@ {
        Some(ParamType::Text)
    } else if tag == "integer"@ {
        Some(ParamType::Integer)
    } else if tag == "boolean"@ {
        Some(ParamType::Boolean)
    } else if tag == "enumeration"@ {
        Some(ParamType::Enumeration)
    } else {
        None
    }
}

/// The declaration that a stated parameter makes, without its default.
pub open spec fn declared_bare(raw: RawParamModel, kind: ParamType) -> ParamModel {
    ParamModel {
        name: raw.name,
        kind,
        required: raw.required,
        default: None,
        allowed: raw.allowed,
    }
}

/// The declaration that a stated parameter makes, or what is wrong with it.
pub open spec fn declared(raw: RawParamModel) -> Result<ParamModel, SchemaFault> {
    if raw.name.len() == 0 {
        Err(SchemaFault::Unnamed)
    } else if tag_type(raw.type_tag) is None {
        Err(SchemaFault::UnknownType)
    } else if tag_type(raw.type_tag) == Some(ParamType::Enumeration) && raw.allowed.len() == 0 {
        Err(SchemaFault::EmptyEnumeration)
    } else {
        let bare = declared_bare(raw, tag_type(raw.type_tag)->0);
        match raw.default {
            None => if raw.required {
                Ok(bare)
            } else {
                Err(SchemaFault::MissingDefault)
            },
            Some(d) => match coercion(bare, d) {
                Ok(value) => Ok(
                    ParamModel {
                        name: bare.name,
                        kind: bare.kind,
                        required: bare.required,
                        default: Some(value),
                        allowed: bare.allowed,
                    },
                ),
                Err(_) => Err(SchemaFault::BadDefault),
            },
        }
    }
}

/// Whether one of the first `upto` stated parameters is named `name`.
pub open spec fn stated_before(params: Seq<RawParamModel>, name: Seq<char>, upto: int) -> bool {
    exists|j: int| 0 <= j < upto && j < params.len() && (#[trigger] params[j]).name == name
}

/// The declarations that the first `upto` stated parameters make, or the
/// name of the first of them that is malformed, with what is wrong with it.
pub open spec fn declared_upto(params: Seq<RawParamModel>, upto: int) -> Result<
    Seq<ParamModel>,
    (Seq<char>, SchemaFault),
>
    decreases upto,
{
    if upto <= 0 {
        Ok(Seq::empty())
    } else {
        match declared_upto(params, upto - 1) {
            Err(fault) => Err(fault),
            Ok(decls) => match declared(params[upto - 1]) {
                Err(reason) => Err((params[upto - 1].name, reason)),
                Ok(decl) => if stated_before(params, params[upto - 1].name, upto - 1) {
                    Err((params[upto - 1].name, SchemaFault::DuplicateParameter))
                } else {
                    Ok(decls.push(decl))
                },
            },
        }
    }
}

/// The declarations that stated parameters make.
pub open spec fn declared_all(params: Seq<RawParamModel>) -> Result<
    Seq<ParamModel>,
    (Seq<char>, SchemaFault),
> {
    declared_upto(params, params.len() as int)
}

/// The type that `tag` names, if it names one.
pub fn parse_tag(tag: &String) -> (r: Option<ParamType>)
    ensures
        r == tag_type(tag@),
{
    if *tag == String::from_str("string") {
        Some(ParamType::Text)
    } else if *tag == String::from_str("integer") {
        Some(ParamType::Integer)
    } else if *tag == String::from_str("boolean") {
        Some(ParamType::Boolean)
    } else if *tag == String::from_str("enumeration") {
        Some(ParamType::Enumeration)
    } else {
        None
    }
}

/// A copy of `items`.
pub fn copy_texts(items: &Vec<String>) -> (r: Vec<String>)
    ensures
        r@ == items@,
{
    let mut out: Vec<String> = Vec::new();
    let mut i: usize = 0;
    while i < items.len()
        invariant
            i <= items@.len(),
            out@ == items@.subrange(0, i as int),
        decreases items@.len() - i,
    {
        out.push(items[i].clone());
        proof {
            assert(out@ =~= items@.subrange(0, i as int + 1));
        }
        i = i + 1;
    }
    proof {
        assert(items@.subrange(0, items@.len() as int) =~= items@);
    }
    out
}

/// A copy of `text`.
pub fn copy_option(text: &Option<String>) -> (r: Option<String>)
    ensures
        r == *text,
{
    match text {
        Some(s) => Some(s.clone()),
        None => None,
    }
}

/// Turns one stated parameter into a declaration.
pub fn declare(raw: &RawParam) -> (r: Result<ParamDecl, SchemaFault>)
    ensures
        match declared(raw@) {
            Ok(decl) => r matches Ok(d) && d@ == decl,
            Err(reason) => r == Err::<ParamDecl, SchemaFault>(reason),
        },
{
    if raw.name.as_str().unicode_len() == 0 {
        return Err(SchemaFault::Unnamed);
    }
    let kind = match parse_tag(&raw.type_tag) {
        Some(kind) => kind,
        None => {
            return Err(SchemaFault::UnknownType);
        },
    };
    if kind == ParamType::Enumeration && raw.allowed.len() == 0 {
        return Err(SchemaFault::EmptyEnumeration);
    }
    let mut decl = ParamDecl {
        name: raw.name.clone(),
        kind,
        required: raw.required,
        default: None,
        allowed: copy_texts(&raw.allowed),
    };
    assert(decl@ == declared_bare(raw@, kind));
    match &raw.default {
        None => {
            if raw.required {
                Ok(decl)
            } else {
                Err(SchemaFault::MissingDefault)
            }
        },
        Some(d) => match coerce(&decl, d) {
            Ok(value) => {
                decl.default = Some(value);
                Ok(decl)
            },
            Err(_) => Err(SchemaFault::BadDefault),
        },
    }
}

/// A fault among the first stated parameters is the fault of the whole.
pub proof fn lemma_schema_fault_stays(params: Seq<RawParamModel>, at: int, upto: int)
    requires
        at <= upto,
        declared_upto(params, at) is Err,
    ensures
        declared_upto(params, upto) == declared_upto(params, at),
    decreases upto - at,
{
    if at < upto {
        lemma_schema_fault_stays(params, at, upto - 1);
    }
}

/// A declaration made from a stated parameter is well formed and keeps the
/// stated name.
pub proof fn lemma_declared_is_well_formed(raw: RawParamModel)
    requires
        declared(raw) is Ok,
    ensures
        declared(raw)->Ok_0.well_formed(),
        declared(raw)->Ok_0.name == raw.name,
{
}

/// The declarations made from stated parameters are well formed, differ in
/// name, and stand in the stated order under the stated names.
pub proof fn lemma_declared_upto_is_well_formed(params: Seq<RawParamModel>, upto: int)
    requires
        0 <= upto <= params.len(),
        declared_upto(params, upto) is Ok,
    ensures
        declared_upto(params, upto)->Ok_0.len() == upto,
        forall|i: int|
            0 <= i < upto ==> (#[trigger] declared_upto(params, upto)->Ok_0[i]).name
                == params[i].name,
        well_formed_parameters(declared_upto(params, upto)->Ok_0),
    decreases upto,
{
    if upto > 0 {
        lemma_declared_upto_is_well_formed(params, upto - 1);
        lemma_declared_is_well_formed(params[upto - 1]);
        let before = declared_upto(params, upto - 1)->Ok_0;
        let now = declared_upto(params, upto)->Ok_0;
        assert(now == before.push(declared(params[upto - 1])->Ok_0));
        assert forall|i: int, j: int| 0 <= i < j < now.len() implies now[i].name
            != now[j].name by {
            if j == upto - 1 {
                assert(now[i] == before[i]);
                assert(params[i].name == before[i].name);
            } else {
                assert(now[i] == before[i]);
                assert(now[j] == before[j]);
            }
        }
        assert forall|i: int| 0 <= i < now.len() implies (#[trigger] now[i]).well_formed() by {
            if i < upto - 1 {
                assert(now[i] == before[i]);
            }
        }
        assert forall|i: int| 0 <= i < upto implies (#[trigger] now[i]).name
            == params[i].name by {
            if i < upto - 1 {
                assert(now[i] == before[i]);
            }
        }
    }
}

/// Whether one of the first `upto` of `params` is named `name`.
pub fn is_stated_before(params: &Vec<RawParam>, name: &String, upto: usize) -> (r: bool)
    requires
        upto <= params@.len(),
    ensures
        r == stated_before(raw_param_models(params@), name@, upto as int),
{
    let mut j: usize = 0;
    while j < upto
        invariant
            j <= upto <= params@.len(),
            forall|k: int| 0 <= k < j ==> (#[trigger] raw_param_models(params@)[k]).name != name@,
        decreases upto - j,
    {
        assert(raw_param_models(params@)[j as int] == params@[j as int]@);
        if params[j].name == *name {
            return true;
        }
        j = j + 1;
    }
    false
}

/// Turns the stated parameters of a leaf into its declarations, in the
/// stated order. The first parameter that is malformed, or that bears the
/// name of an earlier one, gives the error: its name and what is wrong.
pub fn declare_all(params: &Vec<RawParam>) -> (r: Result<Vec<ParamDecl>, (String, SchemaFault)>)
    ensures
        match declared_all(raw_param_models(params@)) {
            Ok(decls) => r matches Ok(ds) && param_models(ds@) == decls && well_formed_parameters(
                decls,
            ),
            Err(fault) => r matches Err(e) && e.0@ == fault.0 && e.1 == fault.1,
        },
{
    let ghost raws = raw_param_models(params@);
    let mut decls: Vec<ParamDecl> = Vec::new();
    let mut i: usize = 0;
    proof {
        assert(param_models(decls@) =~= Seq::<ParamModel>::empty());
    }
    while i < params.len()
        invariant
            i <= params@.len(),
            raws == raw_param_models(params@),
            declared_upto(raws, i as int) == Ok::<Seq<ParamModel>, (Seq<char>, SchemaFault)>(
                param_models(decls@),
            ),
        decreases params@.len() - i,
    {
        assert(raws[i as int] == params@[i as int]@);
        match declare(&params[i]) {
            Err(reason) => {
                proof {
                    lemma_schema_fault_stays(raws, i as int + 1, raws.len() as int);
                }
                return Err((params[i].name.clone(), reason));
            },
            Ok(decl) => {
                if is_stated_before(params, &params[i].name, i) {
                    proof {
                        lemma_schema_fault_stays(raws, i as int + 1, raws.len() as int);
                    }
                    return Err((params[i].name.clone(), SchemaFault::DuplicateParameter));
                }
                let ghost before = param_models(decls@);
                decls.push(decl);
                proof {
                    assert(param_models(decls@) =~= before.push(decl@));
                }
            },
        }
        i = i + 1;
    }
    proof {
        lemma_declared_upto_is_well_formed(raws, raws.len() as int);
    }
    Ok(decls)
}

/// Whether a path segment can select `name`.
pub fn name_is_selectable(name: &String) -> (r: bool)
    ensures
        r == selectable(name@),
{
    let empty = name.as_str().unicode_len() == 0;
    !empty && !segment_is_skipped(name) && !segment_is_parent(name)
}

/// Whether one of the first `upto` of `entries` bears the name `name`.
pub open spec fn scanned_before(entries: Seq<ScannedModel>, name: Seq<char>, upto: int) -> bool {
    exists|j: int| 0 <= j < upto && j < entries.len() && (#[trigger] entries[j]).name() == name
}

/// The first fault that building meets in `entry`, of a directory only its
/// first `upto` entries being looked at. An entry is taken before what it
/// holds, the entries of a directory in their order, and each entry in full
/// before its name is held against those of the entries before it.
pub open spec fn fault_upto(entry: ScannedModel, upto: int) -> Option<LoadFault>
    decreases entry, upto,
{
    match entry {
        ScannedModel::Executable { name, path, description, parameters } => {
            if !selectable(name) {
                Some(LoadFault::InvalidName(name))
            } else {
                match declared_all(parameters) {
                    Err(fault) => Some(
                        LoadFault::InvalidSchema {
                            leaf: name,
                            parameter: fault.0,
                            reason: fault.1,
                        },
                    ),
                    Ok(_) => None,
                }
            }
        },
        ScannedModel::Directory { name, description, entries } => {
            if !selectable(name) {
                Some(LoadFault::InvalidName(name))
            } else if upto <= 0 || upto > entries.len() {
                None
            } else {
                match fault_upto(entry, upto - 1) {
                    Some(fault) => Some(fault),
                    None => match fault_upto(entries[upto - 1], entries[upto - 1].breadth()) {
                        Some(fault) => Some(fault),
                        None => if scanned_before(entries, entries[upto - 1].name(), upto - 1) {
                            Some(LoadFault::DuplicateName(entries[upto - 1].name()))
                        } else {
                            None
                        },
                    },
                }
            }
        },
    }
}

/// The first fault that building meets in `entry`.
pub open spec fn fault_of(entry: ScannedModel) -> Option<LoadFault> {
    fault_upto(entry, entry.breadth())
}

/// The tree that `entry` describes: a group for a directory, with one child
/// for each entry and in their order, a leaf for an executable file, with
/// its path and the declarations that its stated parameters make.
pub open spec fn tree_of(entry: ScannedModel) -> NodeModel
    decreases entry,
{
    match entry {
        ScannedModel::Executable { name, path, description, parameters } => NodeModel {
            name,
            kind: NodeKind::Leaf,
            description,
            children: Seq::empty(),
            parameters: match declared_all(parameters) {
                Ok(decls) => decls,
                Err(_) => Seq::empty(),
            },
            executable_path: Some(path),
        },
        ScannedModel::Directory { name, description, entries } => NodeModel {
            name,
            kind: NodeKind::Group,
            description,
            children: Seq::new(
                entries.len(),
                |i: int|
                    if 0 <= i < entries.len() {
                        tree_of(entries[i])
                    } else {
                        arbitrary()
                    },
            ),
            parameters: Seq::empty(),
            executable_path: None,
        },
    }
}

/// A fault among the first entries of a directory is the fault of the whole.
pub proof fn lemma_load_fault_stays(entry: ScannedModel, at: int, upto: int)
    requires
        0 <= at <= upto <= entry.breadth(),
        fault_upto(entry, at) is Some,
    ensures
        fault_upto(entry, upto) == fault_upto(entry, at),
    decreases upto - at,
{
    if at < upto {
        lemma_load_fault_stays(entry, at, upto - 1);
    }
}

/// Where the first `upto` entries of a directory have no fault, none of
/// them has one of its own, and none bears the name of an entry before it.
pub proof fn lemma_no_fault_below(entry: ScannedModel, upto: int)
    requires
        0 <= upto <= entry.breadth(),
        fault_upto(entry, upto) is None,
        selectable(entry.name()),
    ensures
        forall|i: int|
            0 <= i < upto ==> fault_of(#[trigger] entry.entries()[i]) is None && !scanned_before(
                entry.entries(),
                entry.entries()[i].name(),
                i,
            ),
    decreases upto,
{
    if upto > 0 {
        lemma_no_fault_below(entry, upto - 1);
    }
}

/// A tree built from a scan without fault is well formed: every name can be
/// selected, sibling names differ, no leaf has children and no group an
/// executable, and the parameters of each leaf are well formed.
pub proof fn lemma_tree_is_well_formed(entry: ScannedModel)
    requires
        fault_of(entry) is None,
    ensures
        tree_of(entry).well_formed(),
        tree_of(entry).name == entry.name(),
    decreases entry,
{
    match entry {
        ScannedModel::Executable { name, path, description, parameters } => {
            lemma_declared_upto_is_well_formed(parameters, parameters.len() as int);
        },
        ScannedModel::Directory { name, description, entries } => {
            lemma_no_fault_below(entry, entries.len() as int);
            let tree = tree_of(entry);
            assert forall|i: int| 0 <= i < tree.children.len() implies (
            #[trigger] tree.children[i]).well_formed() && tree.children[i].name
                == entries[i].name() by {
                assert(fault_of(entry.entries()[i]) is None);
                lemma_tree_is_well_formed(entries[i]);
            }
            assert forall|i: int, j: int| 0 <= i < j < tree.children.len() implies tree.children[i].name
                != tree.children[j].name by {
                assert(fault_of(entry.entries()[j]) is None);
                assert(!scanned_before(entries, entries[j].name(), j));
                assert(entries[i].name() == tree.children[i].name);
            }
            assert(well_formed_parameters(tree.parameters));
        },
    }
}

impl Scanned {
    /// The entries of a directory stand for the entries of what it stands
    /// for.
    pub proof fn lemma_view_entries(&self)
        ensures
            match *self {
                Scanned::Directory { name, description, entries } => {
                    &&& self@ is Directory
                    &&& self@.name() == name@
                    &&& self@->Directory_description == option_text(description)
                    &&& self@.entries().len() == entries@.len()
                    &&& forall|i: int|
                        0 <= i < entries@.len() ==> (#[trigger] self@.entries()[i])
                            == entries@[i]@
                },
                Scanned::Executable { name, path, description, parameters } => {
                    self@ == (ScannedModel::Executable {
                        name: name@,
                        path: path@,
                        description: option_text(description),
                        parameters: raw_param_models(parameters@),
                    })
                },
            },
    {
    }
}

/// Whether one of `nodes` is named `name`.
pub fn has_name(nodes: &Vec<CommandNode>, name: &String) -> (r: bool)
    ensures
        r == exists|j: int| 0 <= j < nodes@.len() && (#[trigger] nodes@[j]).name@ == name@,
{
    let mut j: usize = 0;
    while j < nodes.len()
        invariant
            j <= nodes@.len(),
            forall|k: int| 0 <= k < j ==> (#[trigger] nodes@[k]).name@ != name@,
        decreases nodes@.len() - j,
    {
        if nodes[j].name == *name {
            return true;
        }
        j = j + 1;
    }
    false
}

/// Builds the tree that `entry` describes. Where `entry` has a fault, the
/// first one is the error: a name that no segment can select, a malformed
/// parameter, or a name that an earlier entry of the same directory bears.
/// A tree that is built is well formed.
pub fn load_entry(entry: &Scanned) -> (r: Result<CommandNode, LoadError>)
    ensures
        match fault_of(entry@) {
            None => r matches Ok(node) && node@ == tree_of(entry@),
            Some(fault) => r matches Err(e) && e@ == fault,
        },
        r matches Ok(node) ==> node@.well_formed(),
    decreases entry,
{
    proof {
        entry.lemma_view_entries();
        if fault_of(entry@) is None {
            lemma_tree_is_well_formed(entry@);
        }
    }
    match entry {
        Scanned::Executable { name, path, description, parameters } => {
            if !name_is_selectable(name) {
                return Err(LoadError::InvalidName { name: name.clone() });
            }
            match declare_all(parameters) {
                Err(fault) => Err(
                    LoadError::InvalidSchema {
                        leaf: name.clone(),
                        parameter: fault.0,
                        reason: fault.1,
                    },
                ),
                Ok(decls) => {
                    let node = CommandNode {
                        name: name.clone(),
                        kind: NodeKind::Leaf,
                        description: copy_option(description),
                        children: Vec::new(),
                        parameters: decls,
                        executable_path: Some(path.clone()),
                    };
                    proof {
                        node.lemma_view_children();
                        assert(node@.children =~= tree_of(entry@).children);
                    }
                    Ok(node)
                },
            }
        },
        Scanned::Directory { name, description, entries } => {
            if !name_is_selectable(name) {
                return Err(LoadError::InvalidName { name: name.clone() });
            }
            let ghost scanned = entry@.entries();
            let mut children: Vec<CommandNode> = Vec::new();
            let mut i: usize = 0;
            while i < entries.len()
                invariant
                    i <= entries@.len(),
                    *entry matches Scanned::Directory { entries: held, .. } && held == entries,
                    entry@ is Directory,
                    scanned == entry@.entries(),
                    scanned.len() == entries@.len(),
                    forall|k: int|
                        0 <= k < entries@.len() ==> (#[trigger] scanned[k]) == entries@[k]@,
                    selectable(entry@.name()),
                    fault_upto(entry@, i as int) is None,
                    children@.len() == i,
                    forall|k: int|
                        0 <= k < i ==> (#[trigger] children@[k])@ == tree_of(scanned[k]),
                decreases entries@.len() - i,
            {
                match load_entry(&entries[i]) {
                    Err(e) => {
                        proof {
                            lemma_load_fault_stays(entry@, i as int + 1, entries@.len() as int);
                        }
                        return Err(e);
                    },
                    Ok(child) => {
                        proof {
                            lemma_no_fault_below(entry@, i as int);
                            lemma_tree_is_well_formed(scanned[i as int]);
                            child.lemma_view_children();
                            assert forall|j: int| 0 <= j < i implies (#[trigger] children@[j]).name@
                                == scanned[j].name() by {
                                assert(fault_of(entry@.entries()[j]) is None);
                                lemma_tree_is_well_formed(scanned[j]);
                                children@[j].lemma_view_children();
                            }
                        }
                        if has_name(&children, &child.name) {
                            proof {
                                let j = choose|j: int|
                                    0 <= j < children@.len() && (#[trigger] children@[j]).name@
                                        == child.name@;
                                assert(scanned[j].name() == child.name@);
                                lemma_load_fault_stays(
                                    entry@,
                                    i as int + 1,
                                    entries@.len() as int,
                                );
                            }
                            return Err(LoadError::DuplicateName { name: child.name });
                        }
                        proof {
                            if scanned_before(scanned, scanned[i as int].name(), i as int) {
                                let j = choose|j: int|
                                    0 <= j < i && j < scanned.len() && (#[trigger] scanned[j]).name()
                                        == scanned[i as int].name();
                                assert(children@[j].name@ == child.name@);
                            }
                        }
                        children.push(child);
                    },
                }
                i = i + 1;
            }
            let node = CommandNode {
                name: name.clone(),
                kind: NodeKind::Group,
                description: copy_option(description),
                children,
                parameters: Vec::new(),
                executable_path: None,
            };
            proof {
                node.lemma_view_children();
                assert(node@.children =~= tree_of(entry@).children);
                assert(node@.parameters =~= tree_of(entry@).parameters);
            }
            Ok(node)
        },
    }
}

/// What loading yields for the outcome of a scan: the message of a scan
/// that failed, or the first fault of what was scanned.
pub open spec fn load_fault(scan: Result<Scanned, String>) -> Option<LoadFault> {
    match scan {
        Err(message) => Some(LoadFault::Io(message@)),
        Ok(entry) => fault_of(entry@),
    }
}

/// Builds the command tree from the outcome of a scan of the root
/// directory. A scan that failed is an `Io` error with the scan's message.
/// Otherwise the tree is the one that the scan describes, and it is well
/// formed: sibling names differ and no leaf has children. A directory
/// without entries gives a group without children.
pub fn load(scan: &Result<Scanned, String>) -> (r: Result<CommandNode, LoadError>)
    ensures
        match load_fault(*scan) {
            None => r matches Ok(root) && root@ == tree_of(scan->Ok_0@),
            Some(fault) => r matches Err(e) && e@ == fault,
        },
        r matches Ok(root) ==> root@.well_formed(),
{
    match scan {
        Err(message) => Err(LoadError::Io { message: message.clone() }),
        Ok(entry) => load_entry(entry),
    }
}

impl SchemaFault {
    /// What is wrong, in words.
    pub open spec fn reason_text(&self) -> Seq<char> {
        match self {
            SchemaFault::Unnamed => "it has no name"@,
            SchemaFault::UnknownType => "its type is unknown"@,
            SchemaFault::EmptyEnumeration => "it allows no value"@,
            SchemaFault::BadDefault => "its default is no value of its type"@,
            SchemaFault::MissingDefault => "it is optional and has no default"@,
            SchemaFault::DuplicateParameter => "its name is taken"@,
        }
    }

    /// What is wrong, in words.
    pub fn reason(&self) -> (text: &'static str)
        ensures
            text@ == self.reason_text(),
    {
        match self {
            SchemaFault::Unnamed => "it has no name",
            SchemaFault::UnknownType => "its type is unknown",
            SchemaFault::EmptyEnumeration => "it allows no value",
            SchemaFault::BadDefault => "its default is no value of its type",
            SchemaFault::MissingDefault => "it is optional and has no default",
            SchemaFault::DuplicateParameter => "its name is taken",
        }
    }
}

impl LoadFault {
    /// The message of the fault.
    pub open spec fn message_text(&self) -> Seq<char> {
        match self {
            LoadFault::Io(message) => "could not read the commands: "@ + *message,
            LoadFault::DuplicateName(name) => "two commands are called "@ + *name,
            LoadFault::InvalidSchema { leaf, parameter, reason } => "parameter "@ + *parameter
                + " of "@ + *leaf + " is malformed: "@ + reason.reason_text(),
            LoadFault::InvalidName(name) => "no path can name "@ + *name,
        }
    }
}

impl LoadError {
    /// The message of the error.
    pub fn message(&self) -> (text: String)
        ensures
            text@ == self@.message_text(),
    {
        match self {
            LoadError::Io { message } => joined(
                "could not read the commands: ",
                message.as_str(),
            ),
            LoadError::DuplicateName { name } => joined(
                "two commands are called ",
                name.as_str(),
            ),
            LoadError::InvalidSchema { leaf, parameter, reason } => {
                let mut text = joined("parameter ", parameter.as_str());
                text.append(" of ");
                text.append(leaf.as_str());
                text.append(" is malformed: ");
                text.append(reason.reason());
                text
            },
            LoadError::InvalidName { name } => joined(
                "no path can name ",
                name.as_str(),
            ),
        }
    }
}

} // verus!
