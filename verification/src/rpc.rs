//! JSON-RPC request handling of the ACP and wire servers, over requests and replies read into
//! plain values.
use vstd::prelude::*;
use crate::llm::{Message, MessageView, copy_messages, copy_string, messages_view};
use crate::session::new_id;
use crate::text::{append_str, str_eq};

verus! {

/// The parts of a JSON-RPC request that the servers read: the method (when it is a string), the
/// request id as JSON text (`null` when absent) and the string parameters.
#[derive(Debug, Clone)]
pub struct RpcRequest {
    pub method: Option<String>,
    pub id: String,
    pub session_id: Option<String>,
    pub prompt: Option<String>,
}

/// A JSON-RPC reply, each with the request id (JSON text).
#[derive(Debug)]
pub enum RpcReply {
    /// `{"protocolVersion": "2024-11-05", "capabilities": {}}`.
    Initialized { id: String },
    /// The sessions, each with its id and number of messages.
    Sessions { id: String, sessions: Vec<(String, usize)> },
    /// The id of a new session.
    Created { id: String, session_id: String },
    /// A session's messages.
    Messages { id: String, messages: Vec<Message> },
    /// An empty tool list.
    Tools { id: String },
    /// A chat answer.
    Response { id: String, response: String },
    Error { id: String, code: i32, message: String },
}

pub enum RpcReplyView {
    Initialized(Seq<char>),
    Sessions(Seq<char>, Seq<(Seq<char>, usize)>),
    Created(Seq<char>, Seq<char>),
    Messages(Seq<char>, Seq<MessageView>),
    Tools(Seq<char>),
    Response(Seq<char>, Seq<char>),
    Error(Seq<char>, i32, Seq<char>),
}

impl View for RpcReply {
    type V = RpcReplyView;

    open spec fn view(&self) -> RpcReplyView {
        match self {
            RpcReply::Initialized { id } => RpcReplyView::Initialized(id@),
            RpcReply::Sessions { id, sessions } => RpcReplyView::Sessions(
                id@,
                sessions@.map_values(|s: (String, usize)| (s.0@, s.1)),
            ),
            RpcReply::Created { id, session_id } => RpcReplyView::Created(id@, session_id@),
            RpcReply::Messages { id, messages } => RpcReplyView::Messages(id@, messages_view(messages@)),
            RpcReply::Tools { id } => RpcReplyView::Tools(id@),
            RpcReply::Response { id, response } => RpcReplyView::Response(id@, response@),
            RpcReply::Error { id, code, message } => RpcReplyView::Error(id@, *code, message@),
        }
    }
}

pub open spec fn method_of(req: RpcRequest) -> Seq<char> {
    match req.method {
        Some(m) => m@,
        None => Seq::empty(),
    }
}

pub open spec fn session_text(req: RpcRequest) -> Seq<char> {
    match req.session_id {
        Some(s) => s@,
        None => Seq::empty(),
    }
}

pub open spec fn not_found(id: Seq<char>, method: Seq<char>) -> RpcReplyView {
    RpcReplyView::Error(id, -32601i32, "Method not found: "@ + method)
}

fn method_text(req: &RpcRequest) -> (m: &str)
    ensures
        m@ == method_of(*req),
{
    match &req.method {
        Some(m) => m.as_str(),
        None => {
            proof {
                reveal_strlit("");
            }
            ""
        },
    }
}

fn method_not_found(id: &String, method: &str) -> (r: RpcReply)
    ensures
        r@ == not_found(id@, method@),
{
    let mut message = String::from_str("Method not found: ");
    append_str(&mut message, method);
    RpcReply::Error { id: copy_string(id), code: -32601, message }
}

/// A conversation held by the ACP server.
#[derive(Debug, Clone)]
pub struct AcpSession {
    pub id: String,
    pub context: Vec<Message>,
}

/// The ACP server's sessions, at most one per id, in the order they were created.
pub struct AcpServer {
    sessions: Vec<AcpSession>,
}

pub open spec fn acp_view(ss: Seq<AcpSession>) -> Seq<(Seq<char>, Seq<MessageView>)> {
    ss.map_values(|s: AcpSession| (s.id@, messages_view(s.context@)))
}

/// The messages of the session with the given id.
pub open spec fn acp_lookup(ss: Seq<(Seq<char>, Seq<MessageView>)>, id: Seq<char>) -> Option<Seq<MessageView>> {
    if exists|i: int| 0 <= i < ss.len() && ss[i].0 == id {
        Some(ss[choose|i: int| 0 <= i < ss.len() && ss[i].0 == id].1)
    } else {
        None
    }
}

pub open spec fn acp_ids_distinct(ss: Seq<(Seq<char>, Seq<MessageView>)>) -> bool {
    forall|i: int, j: int| 0 <= i < ss.len() && 0 <= j < ss.len() && i != j ==> ss[i].0 != ss[j].0
}

/// The sessions after creating an empty one with the given id (replacing one with that id).
pub open spec fn acp_create(ss: Seq<(Seq<char>, Seq<MessageView>)>, id: Seq<char>) -> Seq<(Seq<char>, Seq<MessageView>)> {
    if exists|i: int| 0 <= i < ss.len() && ss[i].0 == id {
        ss.update(choose|i: int| 0 <= i < ss.len() && ss[i].0 == id, (id, Seq::empty()))
    } else {
        ss.push((id, Seq::empty()))
    }
}

/// What the ACP server answers to a request other than `sessions/create`.
pub open spec fn acp_reply(ss: Seq<(Seq<char>, Seq<MessageView>)>, req: RpcRequest) -> RpcReplyView {
    let m = method_of(req);
    let id = req.id@;
    if m == "initialize"@ {
        RpcReplyView::Initialized(id)
    } else if m == "sessions/list"@ {
        RpcReplyView::Sessions(id, ss.map_values(|s: (Seq<char>, Seq<MessageView>)| (s.0, s.1.len() as usize)))
    } else if m == "prompts/get"@ {
        match acp_lookup(ss, session_text(req)) {
            Some(ms) => RpcReplyView::Messages(id, ms),
            None => RpcReplyView::Error(id, -32000i32, "Session not found"@),
        }
    } else {
        not_found(id, m)
    }
}

impl AcpServer {
    /// The sessions, each as its id and messages.
    pub closed spec fn sessions(&self) -> Seq<(Seq<char>, Seq<MessageView>)> {
        acp_view(self.sessions@)
    }

    pub open spec fn wf(&self) -> bool {
        acp_ids_distinct(self.sessions())
    }

    /// A server with no session.
    pub fn new() -> (s: AcpServer)
        ensures
            s.wf(),
            s.sessions().len() == 0,
    {
        let s = AcpServer { sessions: Vec::new() };
        assert(s.sessions() =~= Seq::<(Seq<char>, Seq<MessageView>)>::empty());
        s
    }

    fn find(&self, id: &str) -> (r: Option<usize>)
        requires
            self.wf(),
        ensures
            match r {
                Some(i) => i < self.sessions().len() && self.sessions()[i as int].0 == id@,
                None => forall|j: int| 0 <= j < self.sessions().len() ==> self.sessions()[j].0 != id@,
            },
    {
        let mut i: usize = 0;
        while i < self.sessions.len()
            invariant
                i <= self.sessions@.len(),
                forall|j: int| 0 <= j < i ==> self.sessions()[j].0 != id@,
            decreases self.sessions@.len() - i,
        {
            if str_eq(self.sessions[i].id.as_str(), id) {
                return Some(i);
            }
            i = i + 1;
        }
        None
    }

    /// Answers a request: `initialize`, `sessions/list`, `sessions/create` (an empty session with a
    /// fresh random id: 36 hexadecimal digits and hyphens, as uuid writes it), `prompts/get` (a session's messages); any other method is not found.
    pub fn handle_request(&mut self, req: &RpcRequest) -> (r: RpcReply)
        requires
            old(self).wf(),
        ensures
            final(self).wf(),
            method_of(*req) == "sessions/create"@ ==> (r matches RpcReply::Created { id, session_id } && id@ == req.id@
                && final(self).sessions() == acp_create(old(self).sessions(), session_id@)
                && session_id@.len() == 36
                && forall|i: int| 0 <= i < 36 ==> crate::session::is_uuid_char(#[trigger] session_id@[i])),
            method_of(*req) != "sessions/create"@ ==> r@ == acp_reply(old(self).sessions(), *req)
                && final(self).sessions() == old(self).sessions(),
    {
        let method = method_text(req);
        proof {
            reveal_strlit("initialize");
            reveal_strlit("sessions/list");
            reveal_strlit("sessions/create");
            assert("initialize"@.len() != "sessions/create"@.len());
            assert("sessions/list"@.len() != "sessions/create"@.len());
        }
        if str_eq(method, "initialize") {
            RpcReply::Initialized { id: copy_string(&req.id) }
        } else if str_eq(method, "sessions/list") {
            let mut list: Vec<(String, usize)> = Vec::new();
            let mut i: usize = 0;
            while i < self.sessions.len()
                invariant
                    i <= self.sessions@.len(),
                    self.sessions@ == old(self).sessions@,
                    list@.len() == i,
                    forall|j: int| 0 <= j < i ==> (#[trigger] list@[j]).0@ == self.sessions()[j].0
                        && list@[j].1 == self.sessions()[j].1.len(),
                decreases self.sessions@.len() - i,
            {
                list.push((copy_string(&self.sessions[i].id), self.sessions[i].context.len()));
                i = i + 1;
            }
            assert(list@.map_values(|s: (String, usize)| (s.0@, s.1)) =~= self.sessions().map_values(
                |s: (Seq<char>, Seq<MessageView>)| (s.0, s.1.len() as usize),
            ));
            let r = RpcReply::Sessions { id: copy_string(&req.id), sessions: list };
            assert(r@ == acp_reply(old(self).sessions(), *req));
            r
        } else if str_eq(method, "sessions/create") {
            let session_id = new_id();
            let sid = copy_string(&session_id);
            let ghost before = self.sessions();
            let fresh = AcpSession { id: sid, context: Vec::new() };
            assert(messages_view(fresh.context@) =~= Seq::<MessageView>::empty());
            match self.find(session_id.as_str()) {
                Some(i) => {
                    self.sessions.set(i, fresh);
                    proof {
                        assert(self.sessions() =~= before.update(i as int, (session_id@, Seq::empty())));
                        let k = choose|k: int| 0 <= k < before.len() && before[k].0 == session_id@;
                        assert(k == i);
                    }
                },
                None => {
                    self.sessions.push(fresh);
                    assert(self.sessions() =~= before.push((session_id@, Seq::empty())));
                },
            }
            RpcReply::Created { id: copy_string(&req.id), session_id }
        } else if str_eq(method, "prompts/get") {
            let sid: &str = match &req.session_id {
                Some(s) => s.as_str(),
                None => {
                    proof {
                        reveal_strlit("");
                    }
                    ""
                },
            };
            let ghost sidv = session_text(*req);
            assert(sid@ == sidv);
            assert(method_of(*req) == "prompts/get"@);
            assert(old(self).sessions() == self.sessions());
            match self.find(sid) {
                Some(i) => {
                    let ms = copy_messages(&self.sessions[i].context);
                    proof {
                        let k = choose|k: int| 0 <= k < self.sessions().len() && self.sessions()[k].0 == sid@;
                        assert(k == i);
                    }
                    assert(acp_lookup(self.sessions(), sidv) == Some(self.sessions()[i as int].1));
                    assert(self.sessions()[i as int].1 == messages_view(self.sessions@[i as int].context@));
                    let r = RpcReply::Messages { id: copy_string(&req.id), messages: ms };
                    assert(r@ == acp_reply(old(self).sessions(), *req));
                    r
                },
                None => {
                    assert(acp_lookup(self.sessions(), sidv).is_none());
                    let r = RpcReply::Error { id: copy_string(&req.id), code: -32000, message: String::from_str("Session not found") };
                    assert(r@ == acp_reply(old(self).sessions(), *req));
                    r
                },
            }
        } else {
            method_not_found(&req.id, method)
        }
    }
}

/// What the wire server does with a request line.
#[derive(Debug)]
pub enum WireStep {
    /// Send this reply.
    Reply(RpcReply),
    /// Record `User: prompt` as a status update, ask the agent, and reply with `chat_reply`.
    Chat { id: String, prompt: String },
}

pub enum WireStepView {
    Reply(RpcReplyView),
    Chat(Seq<char>, Seq<char>),
}

impl View for WireStep {
    type V = WireStepView;

    open spec fn view(&self) -> WireStepView {
        match self {
            WireStep::Reply(r) => WireStepView::Reply(r@),
            WireStep::Chat { id, prompt } => WireStepView::Chat(id@, prompt@),
        }
    }
}

/// What the wire server does with a request line, read as a request or not read (`Err` with the
/// reader's message).
pub open spec fn wire_step(req: Result<RpcRequest, Seq<char>>) -> WireStepView {
    match req {
        Err(e) => WireStepView::Reply(RpcReplyView::Error("null"@, -32603i32, "serialization error: "@ + e)),
        Ok(r) => {
            let m = method_of(r);
            if m == "initialize"@ {
                WireStepView::Reply(RpcReplyView::Initialized(r.id@))
            } else if m == "tools/list"@ {
                WireStepView::Reply(RpcReplyView::Tools(r.id@))
            } else if m == "chat"@ {
                WireStepView::Chat(r.id@, match r.prompt { Some(p) => p@, None => Seq::empty() })
            } else {
                WireStepView::Reply(not_found(r.id@, m))
            }
        },
    }
}

pub open spec fn request_text(req: Result<RpcRequest, String>) -> Result<RpcRequest, Seq<char>> {
    match req {
        Ok(r) => Ok(r),
        Err(e) => Err(e@),
    }
}

/// Decides what the wire server does with a request line.
pub fn wire_request(req: Result<RpcRequest, String>) -> (s: WireStep)
    ensures
        s@ == wire_step(request_text(req)),
{
    match req {
        Err(e) => {
            let mut message = String::from_str("serialization error: ");
            append_str(&mut message, e.as_str());
            WireStep::Reply(RpcReply::Error { id: String::from_str("null"), code: -32603, message })
        },
        Ok(r) => {
            let m = method_text(&r);
            if str_eq(m, "initialize") {
                WireStep::Reply(RpcReply::Initialized { id: copy_string(&r.id) })
            } else if str_eq(m, "tools/list") {
                WireStep::Reply(RpcReply::Tools { id: copy_string(&r.id) })
            } else if str_eq(m, "chat") {
                let prompt = match &r.prompt {
                    Some(p) => copy_string(p),
                    None => String::new(),
                };
                WireStep::Chat { id: copy_string(&r.id), prompt }
            } else {
                WireStep::Reply(method_not_found(&r.id, m))
            }
        },
    }
}

/// The status update recorded when a chat request arrives.
pub fn chat_status(prompt: &str) -> (s: String)
    ensures
        s@ == "User: "@ + prompt@,
{
    let mut s = String::from_str("User: ");
    append_str(&mut s, prompt);
    s
}

/// The reply to a chat request: the agent's answer or its error, or an error when no model is
/// available (`None`).
pub fn chat_reply(id: String, result: Option<Result<String, String>>) -> (r: RpcReply)
    ensures
        r@ == match result {
            Some(Ok(answer)) => RpcReplyView::Response(id@, answer@),
            Some(Err(e)) => RpcReplyView::Error(id@, -32603i32, e@),
            None => RpcReplyView::Error(id@, -32603i32, "LLM provider not available"@),
        },
{
    match result {
        Some(Ok(answer)) => RpcReply::Response { id, response: answer },
        Some(Err(e)) => RpcReply::Error { id, code: -32603, message: e },
        None => RpcReply::Error { id, code: -32603, message: String::from_str("LLM provider not available") },
    }
}

/// The wire server: it answers requests read from its input and forwards the agent's events.
#[derive(Debug, Clone, Copy)]
pub struct WireServer;

impl WireServer {
    /// A wire server.
    pub fn new() -> (s: WireServer) {
        WireServer
    }

    /// Decides what to do with a request line.
    pub fn handle_request(&self, req: Result<RpcRequest, String>) -> (s: WireStep)
        ensures
            s@ == wire_step(request_text(req)),
    {
        wire_request(req)
    }
}

} // verus!
