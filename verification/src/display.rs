//! What the screen shows of the state: the conversation lines with their
//! colours, the titles, and the colour of the visualizer.
use vstd::prelude::*;
use crate::app_state::{App, AppStatus, Message};
use crate::text::{concat_text, same_text};

verus! {

/// The colours the screen uses.
#[derive(Clone, Copy, Debug, PartialEq, Eq, Structural)]
pub enum Tint {
    Yellow,
    Green,
    DarkGray,
    Cyan,
    Magenta,
    Red,
    Blue,
}

/// The most conversation lines shown at once.
pub const VISIBLE_MESSAGES: usize = 10;

/// The colour of a conversation line by its speaker: the user yellow, the
/// assistant green, anything else grey.
pub open spec fn role_tint(role: Seq<char>) -> Tint {
    if role == "User"@ {
        Tint::Yellow
    } else if role == "Siri"@ {
        Tint::Green
    } else {
        Tint::DarkGray
    }
}

/// The colour of the visualizer in each status.
pub open spec fn status_tint(status: AppStatus) -> Tint {
    match status {
        AppStatus::Thinking => Tint::Cyan,
        AppStatus::Speaking => Tint::Magenta,
        AppStatus::Listening => Tint::Red,
        _ => Tint::Blue,
    }
}

/// How a message is shown: `<role>: <content>`.
pub open spec fn message_line(m: (Seq<char>, Seq<char>)) -> Seq<char> {
    m.0 + ": "@ + m.1
}

/// The index of the first message shown: the last ten are shown.
pub open spec fn first_visible(n: nat) -> int {
    if n <= VISIBLE_MESSAGES {
        0
    } else {
        n - VISIBLE_MESSAGES
    }
}

/// The screen shows the newest messages, at most ten: it starts so that
/// exactly `min(n, 10)` messages remain, ending with the last one.
pub proof fn lemma_shows_newest_ten(n: nat)
    ensures
        0 <= first_visible(n) <= n,
        n - first_visible(n) == if n <= 10 {
            n as int
        } else {
            10
        },
{
}

/// The user's lines are yellow, the assistant's green and all others grey,
/// and no two of these speakers share a colour.
pub proof fn lemma_role_colours(role: Seq<char>)
    ensures
        (role_tint(role) == Tint::Yellow) == (role == "User"@),
        (role_tint(role) == Tint::Green) == (role == "Siri"@),
        (role_tint(role) == Tint::DarkGray) == (role != "User"@ && role != "Siri"@),
{
    reveal_strlit("User");
    reveal_strlit("Siri");
    assert("User"@[0] != "Siri"@[0]);
}

/// A conversation line shows the speaker, then `: `, then what was said.
pub proof fn lemma_line_shows_role_then_content(m: (Seq<char>, Seq<char>))
    ensures
        message_line(m).len() == m.0.len() + 2 + m.1.len(),
        message_line(m).subrange(0, m.0.len() as int) == m.0,
        message_line(m).subrange(m.0.len() as int, m.0.len() as int + 2) == seq![':', ' '],
        message_line(m).subrange(m.0.len() as int + 2, message_line(m).len() as int) == m.1,
{
    reveal_strlit(": ");
    assert(message_line(m).subrange(0, m.0.len() as int) =~= m.0);
    assert(message_line(m).subrange(m.0.len() as int, m.0.len() as int + 2) =~= seq![':', ' ']);
    assert(message_line(m).subrange(m.0.len() as int + 2, message_line(m).len() as int) =~= m.1);
}

/// The colour of a conversation line spoken by `role`.
pub fn role_color(role: &str) -> (t: Tint)
    ensures
        t == role_tint(role@),
{
    if same_text(role, "User") {
        Tint::Yellow
    } else if same_text(role, "Siri") {
        Tint::Green
    } else {
        Tint::DarkGray
    }
}

/// The colour of the visualizer in `status`.
pub fn visualizer_color(status: AppStatus) -> (t: Tint)
    ensures
        t == status_tint(status),
{
    match status {
        AppStatus::Thinking => Tint::Cyan,
        AppStatus::Speaking => Tint::Magenta,
        AppStatus::Listening => Tint::Red,
        _ => Tint::Blue,
    }
}

/// The text of a conversation line.
pub fn format_message(m: &Message) -> (line: String)
    ensures
        line@ == message_line(m@),
{
    let mut line = concat_text(m.role.as_str(), ": ");
    line.append(m.content.as_str());
    line
}

impl App {
    /// The conversation lines on screen, oldest first: the last ten messages
    /// (or all, if fewer), each with its colour.
    pub fn visible_lines(&self) -> (lines: Vec<(String, Tint)>)
        ensures
            lines@.len() == self@.messages.len() - first_visible(self@.messages.len()),
            lines@.len() == if self@.messages.len() <= 10 {
                self@.messages.len() as int
            } else {
                10
            },
            forall|j: int|
                0 <= j < lines@.len() ==> (#[trigger] lines@[j]).0@ == message_line(
                    self@.messages[self@.messages.len() - lines@.len() + j],
                ),
            forall|j: int|
                0 <= j < lines@.len() ==> {
                    let m = self@.messages[first_visible(self@.messages.len()) + j];
                    &&& (#[trigger] lines@[j]).0@ == message_line(m)
                    &&& lines@[j].1 == role_tint(m.0)
                },
    {
        proof {
            lemma_shows_newest_ten(self@.messages.len());
        }
        let n = self.messages.len();
        let start = if n <= VISIBLE_MESSAGES {
            0
        } else {
            n - VISIBLE_MESSAGES
        };
        let mut lines: Vec<(String, Tint)> = Vec::new();
        let mut k = start;
        while k < n
            invariant
                n == self@.messages.len(),
                start == first_visible(n as nat),
                start <= k <= n,
                lines@.len() == k - start,
                forall|j: int|
                    0 <= j < lines@.len() ==> {
                        let m = self@.messages[start + j];
                        &&& (#[trigger] lines@[j]).0@ == message_line(m)
                        &&& lines@[j].1 == role_tint(m.0)
                    },
            decreases n - k,
        {
            let m = &self.messages[k];
            let line = format_message(m);
            let tint = role_color(m.role.as_str());
            lines.push((line, tint));
            k = k + 1;
        }
        lines
    }

    /// The title of the conversation pane: `Chat: <session id>`.
    pub fn chat_title(&self) -> (title: String)
        ensures
            title@ == "Chat: "@ + self@.session_id,
    {
        concat_text("Chat: ", self.current_session_id.as_str())
    }

    /// The status line: `Model: <model> | Voice: <voice> | [N] New [L] List`.
    pub fn system_info(&self) -> (info: String)
        ensures
            info@ == "Model: "@ + self@.model + " | Voice: "@ + self@.speaker_name
                + " | [N] New [L] List"@,
    {
        let mut info = concat_text("Model: ", self.active_model.as_str());
        info.append(" | Voice: ");
        info.append(self.speaker_name.as_str());
        info.append(" | [N] New [L] List");
        info
    }
}

} // verus!
