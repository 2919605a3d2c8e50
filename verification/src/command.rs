//! The input line of the chat box: a line that starts with a slash is a
//! command and is answered in the server log, any other line is chat.

use vstd::prelude::*;
use vstd::string::*;

verus! {

/// What a submitted line asks the application to do.
#[derive(Debug, PartialEq, Eq)]
pub enum Message {
    /// Show this line in the server log.
    ServerLog(String),
    /// Send the pending line as chat. The line itself is not carried: the
    /// receiver reads it from the input box.
    ChatMessage,
}

/// A `Message` with its text as a sequence of characters.
pub ghost enum MessageView {
    ServerLog(Seq<char>),
    ChatMessage,
}

impl View for Message {
    type V = MessageView;

    open spec fn view(&self) -> MessageView {
        match self {
            Message::ServerLog(line) => MessageView::ServerLog(line@),
            Message::ChatMessage => MessageView::ChatMessage,
        }
    }
}

/// A line is a command exactly if its first character is a slash. The empty
/// line has no first character and is no command.
pub open spec fn is_command(text: Seq<char>) -> bool {
    text.len() > 0 && text[0] == '/'
}

/// The reply to a command. Only the line `/test`, with nothing before or
/// after it, is known.
pub open spec fn command_reply(text: Seq<char>) -> Seq<char> {
    if text == "/test"@ {
        "Test successed"@
    } else {
        "Fail to parse command"@
    }
}

/// The message that a submitted line gives rise to.
pub open spec fn dispatch(text: Seq<char>) -> MessageView {
    if is_command(text) {
        MessageView::ServerLog(command_reply(text))
    } else {
        MessageView::ChatMessage
    }
}

/// The line that the user has typed and not yet submitted.
pub struct Descriptor {
    pub text: String,
}

impl View for Descriptor {
    type V = Seq<char>;

    open spec fn view(&self) -> Seq<char> {
        self.text@
    }
}

impl Descriptor {
    /// An empty input line.
    pub fn new() -> (descriptor: Self)
        ensures
            descriptor@ == Seq::<char>::empty(),
    {
        Descriptor { text: String::new() }
    }

    /// Reads the pending line and says what is to be queued for it: the
    /// reply to a command, as a line for the server log, or the notice that
    /// the line is chat. An unknown command is answered, not refused.
    pub fn parse_command(&self) -> (message: Message)
        ensures
            message@ == dispatch(self@),
    {
        let line = self.text.as_str();
        if !line.is_empty() && line.get_char(0) == '/' {
            let reply = if self.text == String::from_str("/test") {
                String::from_str("Test successed")
            } else {
                String::from_str("Fail to parse command")
            };
            Message::ServerLog(reply)
        } else {
            Message::ChatMessage
        }
    }
}

/// A line that does not start with a slash, the empty line among them, is
/// chat.
pub proof fn lemma_line_without_slash_is_chat(text: Seq<char>)
    requires
        text.len() == 0 || text[0] != '/',
    ensures
        dispatch(text) == MessageView::ChatMessage,
{
}

/// A line that starts with a slash is answered in the server log, and the
/// answer is the failure line unless the line is exactly `/test`.
pub proof fn lemma_line_with_slash_is_answered(text: Seq<char>)
    requires
        text.len() > 0,
        text[0] == '/',
    ensures
        dispatch(text) is ServerLog,
        text != "/test"@ ==> dispatch(text) == MessageView::ServerLog("Fail to parse command"@),
{
}

/// The line `/test` is a command, and its answer is the success line.
pub proof fn lemma_test_command_succeeds()
    ensures
        is_command("/test"@),
        dispatch("/test"@) == MessageView::ServerLog("Test successed"@),
{
    reveal_strlit("/test");
}

} // verus!
