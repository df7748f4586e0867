use fledge::args::InvocationArgs;
use fledge::base::ValueNode;
use fledge::node::{find_method, methods_from_descriptors, Method, Mode, NodeError, NodeKind, Reply};
use fledge::python::{checked_invocation, decode_reply, ForeignRuntime};
use fledge::registry::{build_registry, AppSettings, NodeKindSettings, NodeSettings, RootResponse, StartupError};

fn args_of(pairs: &[(&str, &str)]) -> InvocationArgs {
    let mut a = InvocationArgs::new();
    for (k, v) in pairs {
        a.insert(k.to_string(), v.to_string());
    }
    a
}

fn text(r: Result<Reply, NodeError>) -> String {
    match r {
        Ok(Reply::Str(s)) => s,
        Ok(Reply::Json(v)) => panic!("unexpected structured reply {}", v),
        Err(e) => panic!("unexpected error with status {}", e.status_code()),
    }
}

fn error(r: Result<Reply, NodeError>) -> NodeError {
    match r {
        Err(e) => e,
        Ok(_) => panic!("expected an error"),
    }
}

fn python_entry(name: &str, path: Option<&str>, class: &str) -> (String, NodeSettings) {
    (
        name.to_string(),
        NodeSettings {
            kind: NodeKindSettings::Python {
                search_path: path.map(|p| p.to_string()),
                node_name: class.to_string(),
            },
            settings: serde_json::Value::Null,
        },
    )
}

#[test]
fn update_then_get_returns_the_new_value() {
    let mut node = ValueNode::new();
    let set = node.do_updater("value", &args_of(&[("value", "abc")]));
    assert_eq!(text(set), "abc");
    let got = node.do_getter("value", &InvocationArgs::new());
    assert_eq!(text(got), "abc");
}

#[test]
fn new_value_node_holds_the_empty_string() {
    let node = ValueNode::new();
    assert_eq!(text(node.do_getter("value", &InvocationArgs::new())), "");
}

#[test]
fn unknown_getter_is_not_found() {
    let node = ValueNode::new();
    let e = error(node.do_getter("doesNotExist", &InvocationArgs::new()));
    assert!(e == NodeError::UnknownMethod);
    assert_eq!(e.status_code(), 404);
}

#[test]
fn unknown_updater_leaves_the_value() {
    let mut node = ValueNode::new();
    text(node.do_updater("value", &args_of(&[("value", "kept")])));
    let e = error(node.do_updater("other", &args_of(&[("value", "lost")])));
    assert!(e == NodeError::UnknownMethod);
    assert_eq!(text(node.do_getter("value", &InvocationArgs::new())), "kept");
}

#[test]
fn updater_without_its_argument_fails() {
    let mut node = ValueNode::new();
    text(node.do_updater("value", &args_of(&[("value", "kept")])));
    let e = error(node.do_updater("value", &args_of(&[("other", "x")])));
    assert!(e == NodeError::MissingArgument);
    assert_eq!(e.status_code(), 400);
    assert_eq!(text(node.do_getter("value", &InvocationArgs::new())), "kept");
}

#[test]
fn value_passes_verbatim_with_quotes() {
    let mut node = ValueNode::new();
    let raw = "it's \"quoted\"', '__import__('os')";
    text(node.do_updater("value", &args_of(&[("value", raw)])));
    assert_eq!(text(node.do_getter("value", &InvocationArgs::new())), raw);
}

#[test]
fn value_node_declares_one_getter_and_one_updater() {
    let node = ValueNode::new();
    let kind: NodeKind = node.node_kind();
    assert_eq!(kind.name, "ValueNode");
    assert!(kind.description.is_none());
    let g = node.getters();
    assert_eq!(g.len(), 1);
    assert_eq!(g[0].name, "value");
    assert!(g[0].arguments.is_empty());
    let u = node.updaters();
    assert_eq!(u.len(), 1);
    assert_eq!(u[0].name, "value");
    assert_eq!(u[0].arguments, vec!["value".to_string()]);
    assert!(find_method(&g, "value"));
    assert!(!find_method(&g, "doesNotExist"));
}

#[test]
fn later_argument_replaces_earlier() {
    let a = args_of(&[("a", "1"), ("b", "2"), ("a", "3")]);
    assert_eq!(a.get("a").map(|s| s.as_str()), Some("3"));
    assert_eq!(a.get("b").map(|s| s.as_str()), Some("2"));
    assert!(a.get("c").is_none());
    assert!(InvocationArgs::new().get("a").is_none());
}

#[test]
fn descriptors_keep_the_first_of_each_name() {
    let data = vec![
        ("a".to_string(), Some("first".to_string()), vec!["x".to_string()]),
        ("b".to_string(), None, vec![]),
        ("a".to_string(), Some("second".to_string()), vec![]),
    ];
    let m: Vec<Method> = methods_from_descriptors(data);
    assert_eq!(m.len(), 2);
    assert_eq!(m[0].name, "a");
    assert_eq!(m[0].description.as_deref(), Some("first"));
    assert_eq!(m[0].arguments, vec!["x".to_string()]);
    assert_eq!(m[1].name, "b");
    assert!(methods_from_descriptors(vec![]).is_empty());
}

#[test]
fn method_and_kind_constructors_keep_their_fields() {
    let m = Method::new("set".to_string(), Some("sets".to_string()), vec!["v".to_string()]);
    assert_eq!(m.name, "set");
    assert_eq!(m.description.as_deref(), Some("sets"));
    assert_eq!(m.arguments, vec!["v".to_string()]);
    let k = NodeKind::new("Lamp".to_string(), None);
    assert_eq!(k.name, "Lamp");
    assert!(Mode::Get != Mode::Update);
}

#[test]
fn undeclared_invocation_is_refused() {
    let declared = vec![Method::new("on".to_string(), None, vec![])];
    assert!(checked_invocation(&declared, "on").is_ok());
    assert!(checked_invocation(&declared, "off") == Err(NodeError::UnknownMethod));
    assert!(checked_invocation(&vec![], "on") == Err(NodeError::UnknownMethod));
}

#[test]
fn foreign_text_is_decoded() {
    match decode_reply("{\"a\": [1, true, null]}") {
        Ok(Reply::Json(v)) => assert_eq!(v["a"][1], serde_json::Value::Bool(true)),
        _ => panic!("expected a decoded value"),
    }
    match decode_reply("\"abc\"") {
        Ok(Reply::Json(v)) => assert_eq!(v, serde_json::Value::String("abc".to_string())),
        _ => panic!("expected a decoded value"),
    }
}

#[test]
fn undecodable_foreign_text_is_an_error() {
    let e = error(decode_reply("{'a': 1"));
    assert!(e == NodeError::ResultDecode);
    assert_eq!(e.status_code(), 500);
    assert!(decode_reply("") .is_err());
}

#[test]
fn error_statuses() {
    assert_eq!(NodeError::UnknownMethod.status_code(), 404);
    assert_eq!(NodeError::MissingArgument.status_code(), 400);
    assert_eq!(NodeError::ForeignInvocation.status_code(), 502);
    assert_eq!(NodeError::ResultDecode.status_code(), 500);
    assert_eq!(NodeError::LockPoisoned.status_code(), 500);
}

#[test]
fn root_index_lists_every_name() {
    let r = RootResponse::from_names(&vec!["vals".to_string(), "lamp".to_string()]);
    assert_eq!(r.nodes.len(), 2);
    assert_eq!(r.nodes[0].name, "vals");
    assert_eq!(r.nodes[0].url, "/vals");
    assert_eq!(r.nodes[1].name, "lamp");
    assert_eq!(r.nodes[1].url, "/lamp");
    assert!(RootResponse::from_names(&vec![]).nodes.is_empty());
}

#[test]
fn empty_configuration_gives_empty_registry() {
    let settings = AppSettings { libfledge_path: "/opt/ext".to_string(), nodes: vec![] };
    let mut rt = ForeignRuntime::new();
    match build_registry(&settings, &mut rt) {
        Ok(v) => assert!(v.is_empty()),
        Err(_) => panic!("expected an empty registry"),
    }
}

#[test]
fn repeated_name_is_refused_before_loading() {
    let settings = AppSettings {
        libfledge_path: "/opt/ext".to_string(),
        nodes: vec![
            python_entry("lamp", None, "Lamp"),
            python_entry("fan", Some("/srv/ext"), "Fan"),
            python_entry("lamp", None, "Other"),
        ],
    };
    let mut rt = ForeignRuntime::new();
    match build_registry(&settings, &mut rt) {
        Err(e) => assert!(e == StartupError::DuplicateName),
        Ok(_) => panic!("expected a refusal"),
    }
}

#[test]
fn missing_extension_class_fails_startup() {
    let settings = AppSettings {
        libfledge_path: "/nonexistent/extension/path".to_string(),
        nodes: vec![python_entry("ghost", None, "NoSuchClass")],
    };
    let mut rt = ForeignRuntime::new();
    match build_registry(&settings, &mut rt) {
        Err(e) => assert!(e == StartupError::NodeConstruction),
        Ok(_) => panic!("expected a construction failure"),
    }
}
