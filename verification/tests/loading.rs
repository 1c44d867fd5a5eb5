use restcommander::engine::CommandTree;
use restcommander::loader::{
    declare, declare_all, load, name_is_selectable, parse_tag, LoadError, RawParam, Scanned,
    SchemaFault,
};
use restcommander::resolve::resolve;
use restcommander::tree::{CommandNode, NodeKind, ParamType, ParamValue};
use restcommander::validate::RawValue;

fn raw(name: &str, tag: &str, required: bool, default: Option<RawValue>, allowed: &[&str]) -> RawParam {
    RawParam {
        name: name.to_string(),
        type_tag: tag.to_string(),
        required,
        default,
        allowed: allowed.iter().map(|s| s.to_string()).collect(),
    }
}

fn file(name: &str, parameters: Vec<RawParam>) -> Scanned {
    Scanned::Executable {
        name: name.to_string(),
        path: format!("/srv/commands/{}", name),
        description: Some(format!("runs {}", name)),
        parameters,
    }
}

fn directory(name: &str, entries: Vec<Scanned>) -> Scanned {
    Scanned::Directory { name: name.to_string(), description: None, entries }
}

fn layout() -> Scanned {
    directory(
        "root",
        vec![
            directory(
                "deploy",
                vec![
                    file("restart", vec![raw("force", "boolean", false, Some(RawValue::Boolean(false)), &[])]),
                    file("stop", Vec::new()),
                ],
            ),
            file("status", vec![raw("format", "enumeration", true, None, &["text", "json"])]),
        ],
    )
}

fn names_differ(node: &CommandNode) -> bool {
    for (i, a) in node.children.iter().enumerate() {
        for b in &node.children[i + 1..] {
            if a.name == b.name {
                return false;
            }
        }
    }
    node.children.iter().all(names_differ)
}

fn leaves_are_bare(node: &CommandNode) -> bool {
    (node.kind != NodeKind::Leaf || node.children.is_empty())
        && node.children.iter().all(leaves_are_bare)
}

#[test]
fn tree_mirrors_the_layout() {
    let root = load(&Ok(layout())).unwrap();
    assert_eq!(root.name, "root");
    assert_eq!(root.kind, NodeKind::Group);
    assert_eq!(root.children.len(), 2);
    let deploy = &root.children[0];
    assert_eq!(deploy.kind, NodeKind::Group);
    assert_eq!(deploy.executable_path, None);
    let restart = &deploy.children[0];
    assert_eq!(restart.kind, NodeKind::Leaf);
    assert_eq!(restart.executable_path, Some("/srv/commands/restart".to_string()));
    assert_eq!(restart.description, Some("runs restart".to_string()));
    assert_eq!(restart.parameters.len(), 1);
    assert_eq!(restart.parameters[0].kind, ParamType::Boolean);
    assert_eq!(restart.parameters[0].default, Some(ParamValue::Boolean(false)));
    let status = &root.children[1];
    assert_eq!(status.parameters[0].allowed, vec!["text".to_string(), "json".to_string()]);
}

#[test]
fn loaded_tree_keeps_the_invariants() {
    let root = load(&Ok(layout())).unwrap();
    assert!(names_differ(&root));
    assert!(leaves_are_bare(&root));
}

#[test]
fn empty_directory_is_an_empty_tree() {
    let root = load(&Ok(directory("root", Vec::new()))).unwrap();
    assert_eq!(root.kind, NodeKind::Group);
    assert!(root.children.is_empty());
}

#[test]
fn failed_scan_is_an_io_error() {
    let outcome = load(&Err("permission denied".to_string()));
    assert_eq!(outcome.unwrap_err(), LoadError::Io { message: "permission denied".to_string() });
}

#[test]
fn siblings_of_one_name_are_a_duplicate() {
    let scan = directory("root", vec![file("a", Vec::new()), directory("b", Vec::new()), file("a", Vec::new())]);
    assert_eq!(load(&Ok(scan)).unwrap_err(), LoadError::DuplicateName { name: "a".to_string() });
    let apart = directory(
        "root",
        vec![directory("x", vec![file("a", Vec::new())]), directory("y", vec![file("a", Vec::new())])],
    );
    assert!(load(&Ok(apart)).is_ok());
}

#[test]
fn names_that_no_segment_selects_are_invalid() {
    for name in ["", ".", ".."] {
        let scan = directory("root", vec![file(name, Vec::new())]);
        assert_eq!(load(&Ok(scan)).unwrap_err(), LoadError::InvalidName { name: name.to_string() });
        assert!(!name_is_selectable(&name.to_string()));
    }
    assert!(name_is_selectable(&"...".to_string()));
    assert!(name_is_selectable(&"a".to_string()));
}

fn schema_fault(parameters: Vec<RawParam>) -> (String, SchemaFault) {
    match load(&Ok(directory("root", vec![file("leaf", parameters)]))) {
        Err(LoadError::InvalidSchema { leaf, parameter, reason }) => {
            assert_eq!(leaf, "leaf");
            (parameter, reason)
        }
        other => panic!("no schema fault: {:?}", other),
    }
}

#[test]
fn malformed_parameters_are_invalid_schemas() {
    assert_eq!(
        schema_fault(vec![raw("", "string", true, None, &[])]),
        (String::new(), SchemaFault::Unnamed)
    );
    assert_eq!(
        schema_fault(vec![raw("a", "float", true, None, &[])]),
        ("a".to_string(), SchemaFault::UnknownType)
    );
    assert_eq!(
        schema_fault(vec![raw("a", "enumeration", true, None, &[])]),
        ("a".to_string(), SchemaFault::EmptyEnumeration)
    );
    assert_eq!(
        schema_fault(vec![raw("a", "integer", false, Some(RawValue::Text("1".to_string())), &[])]),
        ("a".to_string(), SchemaFault::BadDefault)
    );
    assert_eq!(
        schema_fault(vec![raw("a", "enumeration", false, Some(RawValue::Text("z".to_string())), &["x"])]),
        ("a".to_string(), SchemaFault::BadDefault)
    );
    assert_eq!(
        schema_fault(vec![raw("a", "string", false, None, &[])]),
        ("a".to_string(), SchemaFault::MissingDefault)
    );
    assert_eq!(
        schema_fault(vec![raw("a", "string", true, None, &[]), raw("a", "integer", true, None, &[])]),
        ("a".to_string(), SchemaFault::DuplicateParameter)
    );
}

#[test]
fn first_fault_in_the_order_of_the_scan_is_reported() {
    let scan = directory(
        "root",
        vec![
            file("a", Vec::new()),
            directory("b", vec![file("c", vec![raw("p", "nothing", true, None, &[])])]),
            file("a", Vec::new()),
        ],
    );
    assert_eq!(
        load(&Ok(scan)).unwrap_err(),
        LoadError::InvalidSchema {
            leaf: "c".to_string(),
            parameter: "p".to_string(),
            reason: SchemaFault::UnknownType
        }
    );
}

#[test]
fn type_tags() {
    assert_eq!(parse_tag(&"string".to_string()), Some(ParamType::Text));
    assert_eq!(parse_tag(&"integer".to_string()), Some(ParamType::Integer));
    assert_eq!(parse_tag(&"boolean".to_string()), Some(ParamType::Boolean));
    assert_eq!(parse_tag(&"enumeration".to_string()), Some(ParamType::Enumeration));
    assert_eq!(parse_tag(&"String".to_string()), None);
    assert_eq!(parse_tag(&"".to_string()), None);
}

#[test]
fn stated_parameter_round_trips() {
    let stated = raw("level", "enumeration", false, Some(RawValue::Text("low".to_string())), &["low", "high"]);
    let declared = declare(&stated).unwrap();
    assert_eq!(declared.name, "level");
    assert_eq!(declared.kind, ParamType::Enumeration);
    assert!(!declared.required);
    assert_eq!(declared.default, Some(ParamValue::Text("low".to_string())));
    assert_eq!(declared.allowed, vec!["low".to_string(), "high".to_string()]);
    let all = declare_all(&vec![stated, raw("n", "integer", true, None, &[])]).unwrap();
    assert_eq!(all.len(), 2);
    assert_eq!(all[1].name, "n");
    assert!(all[1].required);
}

#[test]
fn failed_reload_keeps_the_tree() {
    let mut tree = CommandTree::new(load(&Ok(layout())).unwrap());
    let path = vec!["deploy".to_string(), "stop".to_string()];
    assert_eq!(resolve(tree.snapshot(), &path).unwrap().name, "stop");
    let outcome = tree.reload(&Err("unreadable root".to_string()));
    assert_eq!(outcome, Err(LoadError::Io { message: "unreadable root".to_string() }));
    assert_eq!(resolve(tree.snapshot(), &path).unwrap().name, "stop");
    assert_eq!(tree.snapshot().children.len(), 2);
    let broken = directory("root", vec![file("a", Vec::new()), file("a", Vec::new())]);
    assert!(tree.reload(&Ok(broken)).is_err());
    assert_eq!(resolve(tree.snapshot(), &path).unwrap().name, "stop");
}

#[test]
fn reload_replaces_the_tree() {
    let mut tree = CommandTree::new(load(&Ok(layout())).unwrap());
    assert_eq!(tree.reload(&Ok(directory("fresh", vec![file("only", Vec::new())]))), Ok(()));
    assert_eq!(tree.snapshot().name, "fresh");
    assert_eq!(resolve(tree.snapshot(), &vec!["only".to_string()]).unwrap().name, "only");
    assert!(resolve(tree.snapshot(), &vec!["status".to_string()]).is_err());
}

#[test]
fn load_messages() {
    assert_eq!(
        LoadError::Io { message: "gone".to_string() }.message(),
        "could not read the commands: gone"
    );
    assert_eq!(
        LoadError::DuplicateName { name: "a".to_string() }.message(),
        "two commands are called a"
    );
    assert_eq!(
        LoadError::InvalidName { name: "..".to_string() }.message(),
        "no path can name .."
    );
    assert_eq!(
        LoadError::InvalidSchema {
            leaf: "run".to_string(),
            parameter: "p".to_string(),
            reason: SchemaFault::EmptyEnumeration
        }
        .message(),
        "parameter p of run is malformed: it allows no value"
    );
}
