use rustworkx_core::error::{parse_kind, ErrorEnum, ErrorKind};

type UnifiedError = ErrorEnum<usize, (usize, usize), String>;

fn failing_callback(fail: bool) -> Result<u32, String> {
    if fail {
        Err("bad weight".to_string())
    } else {
        Ok(7)
    }
}

fn propagate(fail: bool) -> Result<u32, UnifiedError> {
    let v = failing_callback(fail)?;
    Ok(v + 1)
}

#[test]
fn render_node_id() {
    let e: UnifiedError = ErrorEnum::NodeId(3);
    assert_eq!(e.render(), "Node index not found in graph: 3");
}

#[test]
fn render_edge_id() {
    let e: UnifiedError = ErrorEnum::EdgeId((1, 2));
    assert_eq!(e.render(), "Node edge not found in graph: (1, 2)");
}

#[test]
fn render_callback() {
    let e: UnifiedError = ErrorEnum::Callback("boom".to_string());
    assert_eq!(e.render(), "Callback error: \"boom\"");
}

#[test]
fn render_cycle() {
    let e: UnifiedError = ErrorEnum::DAGWouldCycle;
    assert_eq!(e.render(), "The operation would introduce a cycle.");
}

#[test]
fn message_with_payload_text() {
    let e: UnifiedError = ErrorEnum::NodeId(9);
    assert_eq!(e.message_with("node 9"), "Node index not found in graph: node 9");
    let c: UnifiedError = ErrorEnum::DAGWouldCycle;
    assert_eq!(c.message_with("ignored"), "The operation would introduce a cycle.");
}

#[test]
fn kind_of_each_variant() {
    assert_eq!(UnifiedError::NodeId(0).kind(), ErrorKind::NodeId);
    assert_eq!(UnifiedError::EdgeId((0, 1)).kind(), ErrorKind::EdgeId);
    assert_eq!(UnifiedError::Callback(String::new()).kind(), ErrorKind::Callback);
    assert_eq!(UnifiedError::DAGWouldCycle.kind(), ErrorKind::DAGWouldCycle);
}

#[test]
fn parse_back_every_kind() {
    let all: Vec<UnifiedError> = vec![
        ErrorEnum::NodeId(42),
        ErrorEnum::EdgeId((4, 5)),
        ErrorEnum::Callback("x".to_string()),
        ErrorEnum::DAGWouldCycle,
    ];
    for e in all.iter() {
        assert_eq!(parse_kind(&e.render()), Some(e.kind()));
    }
}

#[test]
fn parse_edge_prefix_is_not_node_prefix() {
    assert_eq!(parse_kind("Node edge not found in graph: 1"), Some(ErrorKind::EdgeId));
    assert_eq!(parse_kind("Node index not found in graph: 1"), Some(ErrorKind::NodeId));
}

#[test]
fn parse_unknown_message() {
    assert_eq!(parse_kind(""), None);
    assert_eq!(parse_kind("Node"), None);
    assert_eq!(parse_kind("something else"), None);
}

#[test]
fn from_callback_error() {
    let e: UnifiedError = ErrorEnum::from("oops".to_string());
    assert_eq!(e.kind(), ErrorKind::Callback);
    match e {
        ErrorEnum::Callback(c) => assert_eq!(c, "oops"),
        _ => panic!("expected a callback error"),
    }
}

#[test]
fn question_mark_wraps_callback_error() {
    assert_eq!(propagate(false).ok(), Some(8));
    match propagate(true) {
        Err(ErrorEnum::Callback(c)) => assert_eq!(c, "bad weight"),
        _ => panic!("expected a callback error"),
    }
}
