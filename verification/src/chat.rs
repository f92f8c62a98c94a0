//! The chat layer: message values, what the console lines of the server and
//! clients mean, who receives which message, the name exchange, the registry
//! of connected clients and the store of per-client pre-shared keys.
use vstd::prelude::*;

use crate::noise::Frame;
use crate::text::{eq_ignore_ascii_case, same_text, trim_text};

verus! {

/// The text a server sends to ask a new client for its name.
pub const NAME_REQUEST: &'static str = "NAME_REQUEST";

/// The sender name of messages that come from the server itself.
pub const SERVER_NAME: &'static str = "Server";

/// A chat message as carried, serialised, inside a Noise transport message.
#[derive(Debug, Clone)]
pub struct ChatMessage {
    pub sender: String,
    pub content: String,
}

/// A message of the rekeying server's protocol: a chat line or a command to
/// rotate the session keys.
#[derive(Debug, Clone)]
pub enum ControlMessage {
    Chat { sender: String, content: String },
    Rekey,
}

/// A message typed at the server console, for one client or for all.
#[derive(Debug, Clone)]
pub struct ServerCommand {
    /// `None` for every client, otherwise the name of the one client.
    pub target: Option<String>,
    pub message: ChatMessage,
}

// ---------------------------------------------------------------------------
// Console lines.
// ---------------------------------------------------------------------------

/// What a line typed at a client's console asks for.
#[derive(Debug, PartialEq, Eq)]
pub enum ClientInput {
    /// A blank line: prompt again.
    Empty,
    /// `quit` in any letter case: disconnect.
    Quit,
    /// Send this (trimmed) text.
    Send(String),
}

/// What a line typed at the rekeying server's console asks for.
#[derive(Debug, PartialEq, Eq)]
pub enum ConsoleCommand {
    /// A blank line: prompt again.
    Empty,
    /// `quit` in any letter case: stop.
    Quit,
    /// `status` in any letter case: show the session counters.
    Status,
    /// Send this (trimmed) text to the client.
    Send(String),
}

/// What a line typed at the multi-client server's console asks for.
#[derive(Debug, PartialEq, Eq)]
pub enum ServerLine {
    /// A blank line: prompt again.
    Empty,
    /// A line starting with `@` that holds no space.
    InvalidFormat,
    /// Send this (trimmed) text to every client.
    Broadcast(String),
    /// `@name content`: send `content` to the client called `name`.
    Targeted { name: String, content: String },
}

/// The meaning of a server console line, over character sequences.
pub enum ServerLineView {
    Empty,
    InvalidFormat,
    Broadcast(Seq<char>),
    Targeted(Seq<char>, Seq<char>),
}

impl ServerLine {
    pub open spec fn view(self) -> ServerLineView {
        match self {
            ServerLine::Empty => ServerLineView::Empty,
            ServerLine::InvalidFormat => ServerLineView::InvalidFormat,
            ServerLine::Broadcast(c) => ServerLineView::Broadcast(c@),
            ServerLine::Targeted { name, content } => ServerLineView::Targeted(name@, content@),
        }
    }
}

/// The index of the first occurrence of `c` in `s`, or `-1`.
pub open spec fn find_char(s: Seq<char>, c: char) -> int
    decreases s.len(),
{
    if s.len() == 0 {
        -1
    } else if s[0] == c {
        0
    } else {
        let k = find_char(s.drop_first(), c);
        if k < 0 {
            -1
        } else {
            k + 1
        }
    }
}

/// The meaning of an already trimmed server console line.
pub open spec fn parse_trimmed_server_line(t: Seq<char>) -> ServerLineView {
    if t.len() == 0 {
        ServerLineView::Empty
    } else if t[0] != '@' {
        ServerLineView::Broadcast(t)
    } else {
        let i = find_char(t, ' ');
        if i < 0 {
            ServerLineView::InvalidFormat
        } else {
            ServerLineView::Targeted(t.subrange(1, i), t.subrange(i + 1, t.len() as int))
        }
    }
}

/// The meaning of a server console line: it is trimmed, then a line that
/// starts with `@` names its target up to the first space.
pub open spec fn parse_server_line_spec(line: Seq<char>) -> ServerLineView {
    parse_trimmed_server_line(crate::text::trim(line))
}

proof fn lemma_find_char(s: Seq<char>, c: char, i: int)
    requires
        0 <= i <= s.len(),
        forall|j: int| 0 <= j < i ==> s[j] != c,
    ensures
        i < s.len() && s[i] == c ==> find_char(s, c) == i,
        i == s.len() ==> find_char(s, c) == -1,
    decreases i,
{
    if i > 0 {
        let t = s.drop_first();
        assert forall|j: int| 0 <= j < i - 1 implies t[j] != c by {
            assert(t[j] == s[j + 1]);
        }
        lemma_find_char(t, c, i - 1);
    } else if s.len() > 0 {
    }
}

/// A server console line whose trimmed text is empty means nothing; one
/// whose trimmed text is not empty and does not start with `@` is broadcast
/// as that whole trimmed text, every character kept.
pub proof fn lemma_broadcast_line(line: Seq<char>)
    ensures
        crate::text::trim(line).len() == 0 ==> parse_server_line_spec(line) == ServerLineView::Empty,
        crate::text::trim(line).len() > 0 && crate::text::trim(line)[0] != '@'
            ==> parse_server_line_spec(line) == ServerLineView::Broadcast(crate::text::trim(line)),
        parse_server_line_spec(line) matches ServerLineView::Broadcast(c) ==> c
            == crate::text::trim(line) && c.len() > 0 && c[0] != '@',
        crate::text::trim(line).len() > 0 && crate::text::trim(line)[0] == '@'
            && !crate::text::trim(line).contains(' ') ==> parse_server_line_spec(line)
            == ServerLineView::InvalidFormat,
{
    let t = crate::text::trim(line);
    if t.len() > 0 && t[0] == '@' && !t.contains(' ') {
        assert forall|j: int| 0 <= j < t.len() implies t[j] != ' ' by {
            if t[j] == ' ' {
                assert(t.contains(' '));
            }
        }
        lemma_find_char(t, ' ', t.len() as int);
    }
}

/// The meaning of a line typed at the multi-client server's console.
pub fn parse_server_line(line: &str) -> (r: ServerLine)
    ensures
        r@ == parse_server_line_spec(line@),
        crate::text::trim(line@).len() == 0 ==> r is Empty,
        crate::text::trim(line@).len() > 0 && crate::text::trim(line@)[0] != '@' ==> r@
            == ServerLineView::Broadcast(crate::text::trim(line@)),
{
    proof {
        lemma_broadcast_line(line@);
    }
    let t = trim_text(line);
    let ts = t.as_str();
    let n = ts.unicode_len();
    if n == 0 {
        return ServerLine::Empty;
    }
    if ts.get_char(0) != '@' {
        return ServerLine::Broadcast(t);
    }
    let mut i: usize = 0;
    while i < n && ts.get_char(i) != ' '
        invariant
            i <= n,
            n == ts@.len(),
            forall|j: int| 0 <= j < i ==> ts@[j] != ' ',
        decreases n - i,
    {
        i = i + 1;
    }
    proof {
        lemma_find_char(ts@, ' ', i as int);
    }
    if i == n {
        ServerLine::InvalidFormat
    } else {
        let name = String::from_str(ts.substring_char(1, i));
        let content = String::from_str(ts.substring_char(i + 1, n));
        ServerLine::Targeted { name, content }
    }
}

/// A line typed as `@name content` is a message for `name`, provided the
/// name holds no space and the content is not empty and does not end in
/// whitespace (which trimming would remove).
pub proof fn lemma_targeted_line(name: Seq<char>, content: Seq<char>)
    requires
        !name.contains(' '),
        content.len() > 0,
        !crate::text::is_unicode_whitespace(content.last()),
    ensures
        parse_server_line_spec(seq!['@'] + name + seq![' '] + content) == ServerLineView::Targeted(
            name,
            content,
        ),
{
    let line = seq!['@'] + name + seq![' '] + content;
    let k: int = name.len() as int + 1;
    assert(line[0] == '@');
    assert(line.last() == content.last());
    assert(crate::text::trim_start(line) == line);
    assert(crate::text::trim_end(line) == line);
    assert forall|j: int| 0 <= j < k implies line[j] != ' ' by {
        if j > 0 {
            assert(line[j] == name[j - 1]);
        }
    }
    assert(line[k] == ' ');
    lemma_find_char(line, ' ', k);
    assert(line.subrange(1, k) =~= name);
    assert(line.subrange(k + 1, line.len() as int) =~= content);
}

/// The meaning of a line typed at a client's console.
pub open spec fn client_input_spec(line: Seq<char>) -> Option<Seq<char>> {
    let t = crate::text::trim(line);
    if t.len() == 0 || crate::text::eq_ignore_ascii_case_spec(t, "quit"@) {
        None
    } else {
        Some(t)
    }
}

/// A client console line whose trimmed text is neither empty nor `quit` in
/// any letter case is sent as that whole trimmed text; a blank line or
/// `quit` sends nothing.
pub proof fn lemma_client_line_sent(line: Seq<char>)
    ensures
        crate::text::trim(line).len() > 0 && !crate::text::eq_ignore_ascii_case_spec(
            crate::text::trim(line),
            "quit"@,
        ) ==> client_input_spec(line) == Some(crate::text::trim(line)),
        crate::text::trim(line).len() == 0 ==> client_input_spec(line) is None,
        crate::text::eq_ignore_ascii_case_spec(crate::text::trim(line), "quit"@)
            ==> client_input_spec(line) is None,
{
}

/// The meaning of a line typed at a client's console: blank lines are
/// skipped, `quit` in any letter case disconnects, anything else is sent
/// trimmed.
pub fn classify_client_line(line: &str) -> (r: ClientInput)
    ensures
        crate::text::trim(line@).len() == 0 ==> r is Empty,
        crate::text::trim(line@).len() != 0 && crate::text::eq_ignore_ascii_case_spec(
            crate::text::trim(line@),
            "quit"@,
        ) ==> r is Quit,
        (r matches ClientInput::Send(c) ==> Some(c@) == client_input_spec(line@)),
        client_input_spec(line@) is Some ==> r is Send,
        crate::text::trim(line@).len() > 0 && !crate::text::eq_ignore_ascii_case_spec(
            crate::text::trim(line@),
            "quit"@,
        ) ==> (r matches ClientInput::Send(c) && c@ == crate::text::trim(line@)),
{
    proof {
        lemma_client_line_sent(line@);
    }
    let t = trim_text(line);
    if t.as_str().unicode_len() == 0 {
        ClientInput::Empty
    } else if eq_ignore_ascii_case(t.as_str(), "quit") {
        ClientInput::Quit
    } else {
        ClientInput::Send(t)
    }
}

/// The meaning of a line typed at the rekeying server's console: blank
/// lines are skipped, `quit` stops, `status` shows the counters (both in any
/// letter case), anything else is sent trimmed.
pub fn classify_console_line(line: &str) -> (r: ConsoleCommand)
    ensures
        ({
            let t = crate::text::trim(line@);
            if t.len() == 0 {
                r is Empty
            } else if crate::text::eq_ignore_ascii_case_spec(t, "quit"@) {
                r is Quit
            } else if crate::text::eq_ignore_ascii_case_spec(t, "status"@) {
                r is Status
            } else {
                r matches ConsoleCommand::Send(c) && c@ == t
            }
        }),
{
    let t = trim_text(line);
    if t.as_str().unicode_len() == 0 {
        ConsoleCommand::Empty
    } else if eq_ignore_ascii_case(t.as_str(), "quit") {
        ConsoleCommand::Quit
    } else if eq_ignore_ascii_case(t.as_str(), "status") {
        ConsoleCommand::Status
    } else {
        ConsoleCommand::Send(t)
    }
}

/// Whether the session counters are shown after the `count`-th message
/// (every tenth message).
pub fn status_due(count: u64) -> (r: bool)
    ensures
        r == (count % 10 == 0),
{
    count % 10 == 0
}

// ---------------------------------------------------------------------------
// Who receives what.
// ---------------------------------------------------------------------------

/// A message from the server itself.
pub fn server_message(content: String) -> (r: ChatMessage)
    ensures
        r.sender@ == SERVER_NAME@,
        r.content@ == content@,
{
    ChatMessage { sender: String::from_str(SERVER_NAME), content }
}

/// The command a parsed console line sends, if it sends one: a broadcast or
/// a message for one named client, always from the server.
pub fn command_for(line: &ServerLine) -> (r: Option<ServerCommand>)
    ensures
        match line {
            ServerLine::Broadcast(c) => r matches Some(cmd) && cmd.target is None
                && cmd.message.sender@ == SERVER_NAME@ && cmd.message.content@ == c@,
            ServerLine::Targeted { name, content } => r matches Some(cmd) && cmd.target
                matches Some(t) && t@ == name@ && cmd.message.sender@ == SERVER_NAME@
                && cmd.message.content@ == content@,
            _ => r is None,
        },
{
    match line {
        ServerLine::Broadcast(c) => Some(
            ServerCommand { target: None, message: server_message(c.clone()) },
        ),
        ServerLine::Targeted { name, content } => Some(
            ServerCommand { target: Some(name.clone()), message: server_message(content.clone()) },
        ),
        _ => None,
    }
}

/// Whether a client receives a message relayed from the chat: every client
/// but the one that sent it.
pub fn forwards_to(message: &ChatMessage, client_name: &str) -> (r: bool)
    ensures
        r == (message.sender@ != client_name@),
{
    !same_text(message.sender.as_str(), client_name)
}

/// Whether a client receives a server command: a broadcast reaches every
/// client, a targeted command only the client of that name.
pub fn delivers_to(command: &ServerCommand, client_name: &str) -> (r: bool)
    ensures
        r == match command.target {
            None => true,
            Some(t) => t@ == client_name@,
        },
{
    match &command.target {
        None => true,
        Some(t) => same_text(t.as_str(), client_name),
    }
}

/// The message relayed to the chat for a message received from a client:
/// the sender is the name the client registered with, whatever the message
/// itself claims.
pub fn relay_from_client(client_name: &str, received: ChatMessage) -> (r: ChatMessage)
    ensures
        r.sender@ == client_name@,
        r.content@ == received.content@,
{
    ChatMessage { sender: String::from_str(client_name), content: received.content }
}

/// The server's announcement that a client left.
pub fn leave_notice(client_name: &str) -> (r: ChatMessage)
    ensures
        r.sender@ == SERVER_NAME@,
        r.content@ == client_name@ + " left the chat"@,
{
    let mut content = String::from_str(client_name);
    content.append(" left the chat");
    server_message(content)
}

// ---------------------------------------------------------------------------
// Name exchange.
// ---------------------------------------------------------------------------

/// The name a connecting client answers with: the text of its first frame,
/// or `None` where that frame is not text or the connection ended.
pub fn client_name_from(frame: Option<Frame>) -> (r: Option<String>)
    ensures
        match frame {
            Some(Frame::Text(t)) => r == Some(t),
            _ => r is None,
        },
{
    match frame {
        Some(Frame::Text(t)) => Some(t),
        _ => None,
    }
}

/// Whether the server's first frame is the name request.
pub fn is_name_request(frame: &Option<Frame>) -> (r: bool)
    ensures
        r == (frame matches Some(Frame::Text(t)) && t@ == NAME_REQUEST@),
{
    match frame {
        Some(Frame::Text(t)) => same_text(t.as_str(), NAME_REQUEST),
        _ => false,
    }
}

} // verus!
