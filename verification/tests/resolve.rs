use zbus_lockstep::extract::{extract, MemberKind};
use zbus_lockstep::model::{
    Argument, InterfaceDecl, InterfaceDocument, MethodDecl, PropertyDecl, SignalDecl,
};
use zbus_lockstep::resolve::{
    find_candidates, resolve, DeclarationKind, Resolution, ResolutionError, ResolutionKey,
};

fn arg(name: &str, ty: &str) -> Argument {
    Argument { name: Some(name.to_string()), ty: ty.to_string(), direction: None }
}

fn signal(name: &str, args: Vec<Argument>) -> SignalDecl {
    SignalDecl { name: name.to_string(), args }
}

fn interface(name: &str, signals: Vec<SignalDecl>) -> InterfaceDecl {
    InterfaceDecl { name: name.to_string(), signals, methods: vec![], properties: vec![] }
}

fn document(identity: &str, interfaces: Vec<InterfaceDecl>) -> InterfaceDocument {
    InterfaceDocument { identity: identity.to_string(), interfaces }
}

fn node_document() -> InterfaceDocument {
    document(
        "xml/node.xml",
        vec![interface(
            "org.example.Node",
            vec![
                signal("AddNode", vec![arg("name", "s"), arg("path", "o")]),
                signal("RemoveNode", vec![arg("name", "s"), arg("path", "o")]),
            ],
        )],
    )
}

fn tree_document() -> InterfaceDocument {
    document(
        "xml/tree.xml",
        vec![
            interface("org.example.Leaf", vec![signal("Fallen", vec![])]),
            interface("org.example.Tree", vec![signal("RemoveNode", vec![arg("id", "u")])]),
        ],
    )
}

fn key(item_name: &str, interface: Option<&str>, member: Option<&str>) -> ResolutionKey {
    ResolutionKey {
        item_name: item_name.to_string(),
        interface: interface.map(str::to_string),
        member: member.map(str::to_string),
    }
}

fn hit(interface: &str, member: &str, document: &str) -> Resolution {
    Resolution {
        interface: interface.to_string(),
        member: member.to_string(),
        document: document.to_string(),
    }
}

#[test]
fn a_record_name_resolves_to_the_signal_it_contains() {
    let documents = vec![document(
        "xml/node.xml",
        vec![interface(
            "org.example.Node",
            vec![signal("RemoveNode", vec![arg("name", "s"), arg("path", "o")])],
        )],
    )];
    let found = resolve(&documents, DeclarationKind::Signal, &ResolutionKey::new("RemoveNodeSignal"));
    assert_eq!(found, Ok(hit("org.example.Node", "RemoveNode", "xml/node.xml")));
    let body = extract(&documents[0].interfaces[0], MemberKind::Signal, "RemoveNode", None);
    assert_eq!(body, Ok("so".to_string()));
}

#[test]
fn a_new_key_names_the_record_only() {
    assert_eq!(ResolutionKey::new("RemoveNodeSignal"), key("RemoveNodeSignal", None, None));
}

fn remove_node_in(identity: &str, interface_name: &str) -> InterfaceDocument {
    document(identity, vec![interface(interface_name, vec![signal("RemoveNode", vec![])])])
}

#[test]
fn a_signal_declared_by_two_documents_is_ambiguous_until_the_interface_is_named() {
    let documents = vec![
        remove_node_in("xml/node.xml", "org.example.Node"),
        remove_node_in("xml/tree.xml", "org.example.Tree"),
    ];
    let found = resolve(&documents, DeclarationKind::Signal, &key("RemoveNodeSignal", None, None));
    assert!(matches!(found, Err(ResolutionError::Ambiguous { .. })));
    let found = resolve(
        &documents,
        DeclarationKind::Signal,
        &key("RemoveNodeSignal", Some("org.example.Node"), None),
    );
    assert_eq!(found, Ok(hit("org.example.Node", "RemoveNode", "xml/node.xml")));
}

#[test]
fn the_same_signal_in_two_interfaces_is_ambiguous() {
    let documents = vec![node_document(), tree_document()];
    let found = resolve(&documents, DeclarationKind::Signal, &key("RemoveNodeSignal", None, None));
    assert_eq!(
        found,
        Err(ResolutionError::Ambiguous {
            key: "RemoveNodeSignal".to_string(),
            candidates: vec![
                hit("org.example.Node", "RemoveNode", "xml/node.xml"),
                hit("org.example.Tree", "RemoveNode", "xml/tree.xml"),
            ],
        })
    );
}

#[test]
fn an_interface_hint_settles_an_ambiguity() {
    let documents = vec![node_document(), tree_document()];
    assert_eq!(
        resolve(
            &documents,
            DeclarationKind::Signal,
            &key("RemoveNodeSignal", Some("org.example.Tree"), None)
        ),
        Ok(hit("org.example.Tree", "RemoveNode", "xml/tree.xml"))
    );
    assert_eq!(
        resolve(
            &documents,
            DeclarationKind::Signal,
            &key("RemoveNodeSignal", Some("org.example.Node"), None)
        ),
        Ok(hit("org.example.Node", "RemoveNode", "xml/node.xml"))
    );
}

#[test]
fn a_name_that_contains_no_signal_is_not_found() {
    let documents = vec![node_document(), tree_document()];
    assert_eq!(
        resolve(&documents, DeclarationKind::Signal, &key("RenameEvent", None, None)),
        Err(ResolutionError::NotFound { key: "RenameEvent".to_string() })
    );
}

#[test]
fn a_failed_search_with_a_member_hint_names_the_hint() {
    let documents = vec![node_document()];
    assert_eq!(
        resolve(&documents, DeclarationKind::Signal, &key("RemoveNodeSignal", None, Some("Renamed"))),
        Err(ResolutionError::NotFound { key: "Renamed".to_string() })
    );
}

#[test]
fn no_documents_give_no_match() {
    let documents: Vec<InterfaceDocument> = vec![];
    assert_eq!(
        resolve(&documents, DeclarationKind::Signal, &key("RemoveNodeSignal", None, None)),
        Err(ResolutionError::NotFound { key: "RemoveNodeSignal".to_string() })
    );
}

#[test]
fn a_member_hint_replaces_the_name_heuristic() {
    let documents = vec![node_document()];
    assert_eq!(
        resolve(&documents, DeclarationKind::Signal, &key("Unrelated", None, Some("AddNode"))),
        Ok(hit("org.example.Node", "AddNode", "xml/node.xml"))
    );
    assert_eq!(
        resolve(&documents, DeclarationKind::Signal, &key("RemoveNodeSignal", None, Some("AddNode"))),
        Ok(hit("org.example.Node", "AddNode", "xml/node.xml"))
    );
}

#[test]
fn a_member_hint_must_match_the_whole_name() {
    let documents = vec![node_document()];
    assert_eq!(
        resolve(&documents, DeclarationKind::Signal, &key("RemoveNodeSignal", None, Some("Remove"))),
        Err(ResolutionError::NotFound { key: "Remove".to_string() })
    );
}

#[test]
fn two_signals_of_the_hinted_name_are_still_ambiguous() {
    let documents = vec![node_document(), tree_document()];
    let found =
        resolve(&documents, DeclarationKind::Signal, &key("Anything", None, Some("RemoveNode")));
    assert_eq!(
        found,
        Err(ResolutionError::Ambiguous {
            key: "RemoveNode".to_string(),
            candidates: vec![
                hit("org.example.Node", "RemoveNode", "xml/node.xml"),
                hit("org.example.Tree", "RemoveNode", "xml/tree.xml"),
            ],
        })
    );
}

#[test]
fn both_hints_together_pick_one_signal() {
    let documents = vec![node_document(), tree_document()];
    assert_eq!(
        resolve(
            &documents,
            DeclarationKind::Signal,
            &key("Anything", Some("org.example.Tree"), Some("RemoveNode"))
        ),
        Ok(hit("org.example.Tree", "RemoveNode", "xml/tree.xml"))
    );
}

#[test]
fn an_interface_hint_that_names_no_interface_finds_nothing() {
    let documents = vec![node_document(), tree_document()];
    assert_eq!(
        resolve(
            &documents,
            DeclarationKind::Signal,
            &key("RemoveNodeSignal", Some("org.example.Forest"), None)
        ),
        Err(ResolutionError::NotFound { key: "RemoveNodeSignal".to_string() })
    );
}

#[test]
fn two_signals_of_one_interface_can_both_match() {
    let documents = vec![document(
        "xml/node.xml",
        vec![interface("org.example.Node", vec![signal("Node", vec![]), signal("RemoveNode", vec![])])],
    )];
    assert_eq!(
        resolve(&documents, DeclarationKind::Signal, &key("RemoveNodeSignal", None, None)),
        Err(ResolutionError::Ambiguous {
            key: "RemoveNodeSignal".to_string(),
            candidates: vec![
                hit("org.example.Node", "Node", "xml/node.xml"),
                hit("org.example.Node", "RemoveNode", "xml/node.xml"),
            ],
        })
    );
}

#[test]
fn candidates_come_in_search_order() {
    let documents = vec![tree_document(), node_document()];
    assert_eq!(
        find_candidates(&documents, DeclarationKind::Signal, &key("RemoveNodeSignal", None, None)),
        vec![
            hit("org.example.Tree", "RemoveNode", "xml/tree.xml"),
            hit("org.example.Node", "RemoveNode", "xml/node.xml"),
        ]
    );
    assert_eq!(
        find_candidates(&documents, DeclarationKind::Signal, &key("FallenLeaf", None, None)),
        vec![hit("org.example.Leaf", "Fallen", "xml/tree.xml")]
    );
    assert_eq!(
        find_candidates(&documents, DeclarationKind::Signal, &key("Nothing", None, None)),
        Vec::<Resolution>::new()
    );
}

#[test]
fn each_kind_is_searched_in_its_own_list() {
    let documents = vec![document(
        "xml/power.xml",
        vec![InterfaceDecl {
            name: "org.example.Power".to_string(),
            signals: vec![signal("Suspend", vec![])],
            methods: vec![MethodDecl { name: "Resume".to_string(), args: vec![] }],
            properties: vec![PropertyDecl {
                name: "OnBattery".to_string(),
                ty: "b".to_string(),
                access: "read".to_string(),
            }],
        }],
    )];
    assert_eq!(
        resolve(&documents, DeclarationKind::Method, &key("ResumeCall", None, None)),
        Ok(hit("org.example.Power", "Resume", "xml/power.xml"))
    );
    assert_eq!(
        resolve(&documents, DeclarationKind::Property, &key("OnBatteryValue", None, None)),
        Ok(hit("org.example.Power", "OnBattery", "xml/power.xml"))
    );
    assert_eq!(
        resolve(&documents, DeclarationKind::Signal, &key("ResumeCall", None, None)),
        Err(ResolutionError::NotFound { key: "ResumeCall".to_string() })
    );
    assert_eq!(
        resolve(&documents, DeclarationKind::Method, &key("SuspendEvent", None, None)),
        Err(ResolutionError::NotFound { key: "SuspendEvent".to_string() })
    );
    assert_eq!(
        resolve(&documents, DeclarationKind::Signal, &key("SuspendEvent", None, None)),
        Ok(hit("org.example.Power", "Suspend", "xml/power.xml"))
    );
}

#[test]
fn a_key_answers_for_single_names() {
    let plain = key("RemoveNodeSignal", None, None);
    assert!(plain.admits(&"org.example.Node".to_string()));
    assert!(plain.corresponds(&"RemoveNode".to_string()));
    assert!(!plain.corresponds(&"AddNode".to_string()));
    assert_eq!(plain.search_key(), "RemoveNodeSignal");
    let hinted = key("RemoveNodeSignal", Some("org.example.Node"), Some("AddNode"));
    assert!(hinted.admits(&"org.example.Node".to_string()));
    assert!(!hinted.admits(&"org.example.Tree".to_string()));
    assert!(hinted.corresponds(&"AddNode".to_string()));
    assert!(!hinted.corresponds(&"RemoveNode".to_string()));
    assert_eq!(hinted.search_key(), "AddNode");
}
