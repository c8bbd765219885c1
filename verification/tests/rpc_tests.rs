use mekai::rpc::{chat_reply, chat_status, wire_request, AcpServer, RpcReply, RpcRequest, WireServer, WireStep};

fn req(method: Option<&str>, session_id: Option<&str>) -> RpcRequest {
    RpcRequest {
        method: method.map(|m| m.to_string()),
        id: "7".to_string(),
        session_id: session_id.map(|s| s.to_string()),
        prompt: None,
    }
}

#[test]
fn acp_sessions_are_created_listed_and_read() {
    let mut s = AcpServer::new();
    assert!(matches!(s.handle_request(&req(Some("initialize"), None)), RpcReply::Initialized { .. }));
    let sid = match s.handle_request(&req(Some("sessions/create"), None)) {
        RpcReply::Created { id, session_id } => {
            assert_eq!(id, "7");
            assert_eq!(session_id.len(), 36);
            session_id
        },
        other => panic!("unexpected {:?}", other),
    };
    match s.handle_request(&req(Some("sessions/list"), None)) {
        RpcReply::Sessions { sessions, .. } => assert_eq!(sessions, vec![(sid.clone(), 0)]),
        other => panic!("unexpected {:?}", other),
    }
    match s.handle_request(&req(Some("prompts/get"), Some(&sid))) {
        RpcReply::Messages { messages, .. } => assert!(messages.is_empty()),
        other => panic!("unexpected {:?}", other),
    }
    match s.handle_request(&req(Some("prompts/get"), Some("missing"))) {
        RpcReply::Error { code, message, .. } => {
            assert_eq!(code, -32000);
            assert_eq!(message, "Session not found");
        },
        other => panic!("unexpected {:?}", other),
    }
    match s.handle_request(&req(None, None)) {
        RpcReply::Error { code, message, .. } => {
            assert_eq!(code, -32601);
            assert_eq!(message, "Method not found: ");
        },
        other => panic!("unexpected {:?}", other),
    }
}

#[test]
fn wire_requests() {
    match wire_request(Err("expected value".to_string())) {
        WireStep::Reply(RpcReply::Error { id, code, message }) => {
            assert_eq!(id, "null");
            assert_eq!(code, -32603);
            assert_eq!(message, "serialization error: expected value");
        },
        other => panic!("unexpected {:?}", other),
    }
    let mut r = req(Some("chat"), None);
    r.prompt = Some("hi".to_string());
    match WireServer::new().handle_request(Ok(r)) {
        WireStep::Chat { id, prompt } => {
            assert_eq!(id, "7");
            assert_eq!(prompt, "hi");
        },
        other => panic!("unexpected {:?}", other),
    }
    assert!(matches!(wire_request(Ok(req(Some("tools/list"), None))), WireStep::Reply(RpcReply::Tools { .. })));
    match wire_request(Ok(req(Some("bogus"), None))) {
        WireStep::Reply(RpcReply::Error { message, .. }) => assert_eq!(message, "Method not found: bogus"),
        other => panic!("unexpected {:?}", other),
    }
    assert_eq!(chat_status("hey"), "User: hey");
    match chat_reply("1".to_string(), None) {
        RpcReply::Error { message, .. } => assert_eq!(message, "LLM provider not available"),
        other => panic!("unexpected {:?}", other),
    }
}
