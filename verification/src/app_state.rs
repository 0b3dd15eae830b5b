//! The assistant's screen state and how it answers key presses.
//!
//! The terminal loop hands every key to [`App::handle_key`], which updates the
//! state and names the outside work to do next as a [`KeyAction`]: quitting,
//! starting or loading a session, reading the session directory, recording
//! speech, or sending typed text to the language model.
use vstd::prelude::*;
use crate::session::{
    chat_prefix, lemma_session_path_injective, listed_ids, session_id_for,
    session_ids_from_file_names, session_file_path, session_path, sorted_desc, texts,
};
use crate::text::{pop_char, push_char, same_text};

verus! {

/// What the assistant is doing, shown by the visualizer.
#[derive(Clone, Copy, Debug, PartialEq, Eq, Structural)]
pub enum AppStatus {
    Idle,
    Listening,
    Thinking,
    Speaking,
    StartingServices,
}

/// Which screen has the keyboard.
#[derive(Clone, Copy, Debug, PartialEq, Eq, Structural)]
pub enum AppMode {
    Chat,
    SessionSelect,
}

/// A key press, as far as the assistant tells keys apart.
#[derive(Clone, Copy, Debug, PartialEq, Eq, Structural)]
pub enum Key {
    Char(char),
    Up,
    Down,
    Enter,
    Esc,
    Tab,
    Backspace,
    Other,
}

/// One line of the conversation.
#[derive(Debug, PartialEq, Eq)]
pub struct Message {
    pub role: String,
    pub content: String,
}

impl View for Message {
    type V = (Seq<char>, Seq<char>);

    open spec fn view(&self) -> (Seq<char>, Seq<char>) {
        (self.role@, self.content@)
    }
}

/// The outside work that a key press asks for.
#[derive(Debug, PartialEq, Eq)]
pub enum KeyAction {
    /// Nothing beyond the change of state.
    Nothing,
    /// Leave the program.
    Quit,
    /// Save the current session and start a new one.
    NewSession,
    /// Read the sessions directory into the session list.
    OpenSessionList,
    /// Save the current session and load the one with this id.
    LoadSession(String),
    /// Record speech and answer it with this model and voice.
    StartVoice { model: String, speaker_id: u32 },
    /// Answer this text with this model and voice.
    Submit { text: String, model: String, speaker_id: u32 },
}

/// The model of a [`KeyAction`].
pub enum Effect {
    Nothing,
    Quit,
    NewSession,
    OpenSessionList,
    LoadSession(Seq<char>),
    StartVoice(Seq<char>, u32),
    Submit(Seq<char>, Seq<char>, u32),
}

impl View for KeyAction {
    type V = Effect;

    open spec fn view(&self) -> Effect {
        match self {
            KeyAction::Nothing => Effect::Nothing,
            KeyAction::Quit => Effect::Quit,
            KeyAction::NewSession => Effect::NewSession,
            KeyAction::OpenSessionList => Effect::OpenSessionList,
            KeyAction::LoadSession(id) => Effect::LoadSession(id@),
            KeyAction::StartVoice { model, speaker_id } => Effect::StartVoice(model@, *speaker_id),
            KeyAction::Submit { text, model, speaker_id } => Effect::Submit(
                text@,
                model@,
                *speaker_id,
            ),
        }
    }
}

/// The assistant's state.
pub struct App {
    pub messages: Vec<Message>,
    pub status: AppStatus,
    pub mode: AppMode,
    pub input: String,
    pub tick_count: u64,
    pub active_model: String,
    pub active_speaker_id: u32,
    pub speaker_name: String,
    pub current_session_id: String,
    pub sessions: Vec<String>,
    /// The highlighted entry of the session list.
    pub selected: Option<usize>,
}

/// The model of an [`App`].
pub struct AppModel {
    pub messages: Seq<(Seq<char>, Seq<char>)>,
    pub status: AppStatus,
    pub mode: AppMode,
    pub input: Seq<char>,
    pub tick_count: u64,
    pub model: Seq<char>,
    pub speaker_id: u32,
    pub speaker_name: Seq<char>,
    pub session_id: Seq<char>,
    pub sessions: Seq<Seq<char>>,
    pub selected: Option<usize>,
}

/// The views of a list of messages.
pub open spec fn message_views(v: Seq<Message>) -> Seq<(Seq<char>, Seq<char>)> {
    v.map_values(|m: Message| m@)
}

impl View for App {
    type V = AppModel;

    open spec fn view(&self) -> AppModel {
        AppModel {
            messages: message_views(self.messages@),
            status: self.status,
            mode: self.mode,
            input: self.input@,
            tick_count: self.tick_count,
            model: self.active_model@,
            speaker_id: self.active_speaker_id,
            speaker_name: self.speaker_name@,
            session_id: self.current_session_id@,
            sessions: texts(self.sessions@),
            selected: self.selected,
        }
    }
}

// ---------------------------------------------------------------------------
// The key map
// ---------------------------------------------------------------------------

/// The default language model.
pub open spec fn qwen_model() -> Seq<char> {
    "qwen2.5:3b"@
}

/// The other language model that Tab switches to.
pub open spec fn phi_model() -> Seq<char> {
    "phi3:mini"@
}

/// The name of voice 14, the default voice.
pub open spec fn himari_name() -> Seq<char> {
    "冥鳴ひまり"@
}

/// The name of voice 3.
pub open spec fn zundamon_name() -> Seq<char> {
    "ずんだもん"@
}

/// The name of voice 2.
pub open spec fn metan_name() -> Seq<char> {
    "四国めたん"@
}

/// The model that Tab switches to from `model`.
pub open spec fn toggled_model(model: Seq<char>) -> Seq<char> {
    if model == qwen_model() {
        phi_model()
    } else {
        qwen_model()
    }
}

/// The voice (id and name) that `s` switches to from voice `id`:
/// 14 to 3, 3 to 2, and any other to 14.
pub open spec fn next_voice(id: u32) -> (u32, Seq<char>) {
    if id == 14 {
        (3, zundamon_name())
    } else if id == 3 {
        (2, metan_name())
    } else {
        (14, himari_name())
    }
}

/// The voice id is one of the three voices and the name is its name.
pub open spec fn voice_consistent(s: AppModel) -> bool {
    ||| s.speaker_id == 14 && s.speaker_name == himari_name()
    ||| s.speaker_id == 3 && s.speaker_name == zundamon_name()
    ||| s.speaker_id == 2 && s.speaker_name == metan_name()
}

/// The entry highlighted after Up from `sel` in a list of `len` entries:
/// the one above, wrapping from the top to the bottom.
pub open spec fn select_prev(sel: Option<usize>, len: nat) -> int {
    match sel {
        Some(i) => if i == 0 {
            if len == 0 {
                0
            } else {
                len - 1
            }
        } else {
            i - 1
        },
        None => 0,
    }
}

/// The entry highlighted after Down from `sel` in a list of `len` entries:
/// the one below, wrapping from the bottom to the top.
pub open spec fn select_next(sel: Option<usize>, len: nat) -> int {
    match sel {
        Some(i) => if len == 0 || i >= len - 1 {
            0
        } else {
            i + 1
        },
        None => 0,
    }
}

/// The characters that act as commands while the input line is empty.
pub open spec fn is_command_char(c: char) -> bool {
    c == 'q' || c == 'n' || c == 'l' || c == 's' || c == ' '
}

/// A key press in the session list.
pub open spec fn select_step(s: AppModel, key: Key) -> (AppModel, Effect) {
    match key {
        Key::Char(c) => if c == 'l' {
            (AppModel { mode: AppMode::Chat, ..s }, Effect::Nothing)
        } else {
            (s, Effect::Nothing)
        },
        Key::Esc => (AppModel { mode: AppMode::Chat, ..s }, Effect::Nothing),
        Key::Up => (
            AppModel { selected: Some(select_prev(s.selected, s.sessions.len()) as usize), ..s },
            Effect::Nothing,
        ),
        Key::Down => (
            AppModel { selected: Some(select_next(s.selected, s.sessions.len()) as usize), ..s },
            Effect::Nothing,
        ),
        Key::Enter => match s.selected {
            Some(i) => if i < s.sessions.len() {
                (s, Effect::LoadSession(s.sessions[i as int]))
            } else {
                (s, Effect::Nothing)
            },
            None => (s, Effect::Nothing),
        },
        _ => (s, Effect::Nothing),
    }
}

/// A key press in the chat screen.
pub open spec fn chat_step(s: AppModel, key: Key) -> (AppModel, Effect) {
    let idle = s.input.len() == 0;
    match key {
        Key::Char(c) => if idle && c == 'q' {
            (s, Effect::Quit)
        } else if idle && c == 'n' {
            (s, Effect::NewSession)
        } else if idle && c == 'l' {
            (AppModel { mode: AppMode::SessionSelect, ..s }, Effect::OpenSessionList)
        } else if idle && c == 's' {
            (
                AppModel {
                    speaker_id: next_voice(s.speaker_id).0,
                    speaker_name: next_voice(s.speaker_id).1,
                    ..s
                },
                Effect::Nothing,
            )
        } else if idle && c == ' ' {
            (s, Effect::StartVoice(s.model, s.speaker_id))
        } else {
            (AppModel { input: s.input.push(c), ..s }, Effect::Nothing)
        },
        Key::Tab => (AppModel { model: toggled_model(s.model), ..s }, Effect::Nothing),
        Key::Backspace => (
            AppModel {
                input: if idle {
                    s.input
                } else {
                    s.input.drop_last()
                },
                ..s
            },
            Effect::Nothing,
        ),
        Key::Enter => (
            AppModel { input: Seq::empty(), ..s },
            if idle {
                Effect::Nothing
            } else {
                Effect::Submit(s.input, s.model, s.speaker_id)
            },
        ),
        _ => (s, Effect::Nothing),
    }
}

/// The state after `key` and the work it asks for.
pub open spec fn key_step(s: AppModel, key: Key) -> (AppModel, Effect) {
    match s.mode {
        AppMode::SessionSelect => select_step(s, key),
        AppMode::Chat => chat_step(s, key),
    }
}

// ---------------------------------------------------------------------------
// Laws of the key map
// ---------------------------------------------------------------------------

/// In the session list, Down then Up returns to the highlighted entry, and so
/// does Up then Down.
pub proof fn lemma_selection_round_trip(s: AppModel, i: usize)
    requires
        s.mode == AppMode::SessionSelect,
        s.selected == Some(i),
        i < s.sessions.len(),
        s.sessions.len() <= usize::MAX,
    ensures
        key_step(key_step(s, Key::Down).0, Key::Up).0 == s,
        key_step(key_step(s, Key::Up).0, Key::Down).0 == s,
{
    let len = s.sessions.len();
    let d = key_step(s, Key::Down).0;
    let u = key_step(s, Key::Up).0;
    assert(0 <= select_next(s.selected, len) < len);
    assert(0 <= select_prev(s.selected, len) < len);
    assert(select_prev(d.selected, len) == i);
    assert(select_next(u.selected, len) == i);
}

/// The highlight as the session list shows it: none in an empty list, and a
/// highlight past the end pulled back to the last entry.
pub open spec fn shown_selection(sel: Option<usize>, len: nat) -> Option<usize> {
    if len == 0 {
        None
    } else {
        match sel {
            Some(i) => if i >= len {
                Some((len - 1) as usize)
            } else {
                sel
            },
            None => None,
        }
    }
}

/// Showing the session list: its highlight is brought onto the list.
pub open spec fn show_step(s: AppModel) -> AppModel {
    AppModel { selected: shown_selection(s.selected, s.sessions.len()), ..s }
}

/// Once the session list has been shown, its highlight is on an entry, Up and
/// Down keep it on an entry, and Enter on a non-empty list loads the
/// highlighted session (the last one, for a highlight that was past the end).
pub proof fn lemma_shown_selection_in_list(s: AppModel, key: Key)
    requires
        s.mode == AppMode::SessionSelect,
        s.sessions.len() > 0,
        s.sessions.len() <= usize::MAX,
        key == Key::Up || key == Key::Down || key == Key::Enter,
    ensures
        show_step(s).selected matches Some(i) ==> i < s.sessions.len(),
        (key == Key::Up || key == Key::Down) ==> (key_step(show_step(s), key).0.selected matches Some(
            j,
        ) && j < s.sessions.len()),
        show_step(s).selected matches Some(i) ==> key_step(show_step(s), Key::Enter).1
            == Effect::LoadSession(s.sessions[i as int]),
{
    if key != Key::Enter {
        lemma_selection_in_list(show_step(s), key);
    }
}

/// In a non-empty session list whose highlight, if any, is on an entry, Up
/// and Down always highlight an entry of the list.
pub proof fn lemma_selection_in_list(s: AppModel, key: Key)
    requires
        s.mode == AppMode::SessionSelect,
        s.sessions.len() > 0,
        s.selected matches Some(i) ==> i < s.sessions.len(),
        s.sessions.len() <= usize::MAX,
        key == Key::Up || key == Key::Down,
    ensures
        key_step(s, key).0.selected matches Some(j) && j < s.sessions.len(),
{
    let len = s.sessions.len();
    assert(0 <= select_next(s.selected, len) < len);
    assert(0 <= select_prev(s.selected, len) < len);
}

/// Tab twice gives back the model, when the model is one of the two that Tab
/// switches between.
pub proof fn lemma_model_toggle_twice(s: AppModel)
    requires
        s.model == qwen_model() || s.model == phi_model(),
    ensures
        key_step(key_step(s, Key::Tab).0, Key::Tab).0 == s,
{
    reveal_strlit("qwen2.5:3b");
    reveal_strlit("phi3:mini");
    assert(qwen_model() != phi_model()) by {
        assert(qwen_model()[0] != phi_model()[0]);
    }
}

/// The commands of an empty chat line: `q` quits, `n` starts a new session,
/// and neither changes the state.
pub proof fn lemma_empty_line_commands(s: AppModel)
    requires
        s.mode == AppMode::Chat,
        s.input.len() == 0,
    ensures
        key_step(s, Key::Char('q')) == (s, Effect::Quit),
        key_step(s, Key::Char('n')) == (s, Effect::NewSession),
{
}

/// Tab switches from the default model to the other one and back, and from
/// any other model to the default; nothing else changes.
pub proof fn lemma_tab_switches_model(s: AppModel)
    ensures
        s.mode == AppMode::Chat && s.model == "qwen2.5:3b"@ ==> key_step(s, Key::Tab) == (
            AppModel { model: "phi3:mini"@, ..s },
            Effect::Nothing,
        ),
        s.mode == AppMode::Chat && s.model != "qwen2.5:3b"@ ==> key_step(s, Key::Tab) == (
            AppModel { model: "qwen2.5:3b"@, ..s },
            Effect::Nothing,
        ),
        s.mode == AppMode::Chat && s.model == "phi3:mini"@ ==> key_step(s, Key::Tab).0.model
            == "qwen2.5:3b"@,
{
    reveal_strlit("qwen2.5:3b");
    reveal_strlit("phi3:mini");
    assert("qwen2.5:3b"@[0] != "phi3:mini"@[0]);
}

/// `s` on an empty chat line goes from voice 14 (冥鳴ひまり) to 3 (ずんだもん),
/// from 3 to 2 (四国めたん), and from any other to 14; nothing else changes.
pub proof fn lemma_s_switches_voice(s: AppModel)
    requires
        s.mode == AppMode::Chat,
        s.input.len() == 0,
    ensures
        s.speaker_id == 14 ==> key_step(s, Key::Char('s')) == (
            AppModel { speaker_id: 3, speaker_name: "ずんだもん"@, ..s },
            Effect::Nothing,
        ),
        s.speaker_id == 3 ==> key_step(s, Key::Char('s')) == (
            AppModel { speaker_id: 2, speaker_name: "四国めたん"@, ..s },
            Effect::Nothing,
        ),
        s.speaker_id != 14 && s.speaker_id != 3 ==> key_step(s, Key::Char('s')) == (
            AppModel { speaker_id: 14, speaker_name: "冥鳴ひまり"@, ..s },
            Effect::Nothing,
        ),
{
}

/// A character that is not a command adds itself to the end of the chat line,
/// and Backspace takes the last character off (an empty line stays empty).
pub proof fn lemma_typing_edits_line(s: AppModel, c: char)
    requires
        s.mode == AppMode::Chat,
    ensures
        s.input.len() > 0 || !is_command_char(c) ==> key_step(s, Key::Char(c)) == (
            AppModel { input: s.input.push(c), ..s },
            Effect::Nothing,
        ),
        s.input.len() > 0 ==> key_step(s, Key::Backspace) == (
            AppModel { input: s.input.take(s.input.len() - 1), ..s },
            Effect::Nothing,
        ),
        s.input.len() == 0 ==> key_step(s, Key::Backspace) == (s, Effect::Nothing),
{
    assert(s.input.drop_last() =~= s.input.take(s.input.len() - 1));
}

/// In the session list, Down moves the highlight one entry down, from the last
/// entry to the first; Up moves it one entry up, from the first to the last;
/// with no highlight either highlights the first; Esc and `l` go back to the
/// chat.
pub proof fn lemma_session_list_keys(s: AppModel, i: usize)
    requires
        s.mode == AppMode::SessionSelect,
        i < s.sessions.len(),
        s.sessions.len() <= usize::MAX,
    ensures
        s.selected == Some(i) && i + 1 < s.sessions.len() ==> key_step(s, Key::Down).0.selected
            == Some((i + 1) as usize),
        s.selected == Some(i) && i + 1 == s.sessions.len() ==> key_step(s, Key::Down).0.selected
            == Some(0usize),
        s.selected == Some(i) && i > 0 ==> key_step(s, Key::Up).0.selected == Some(
            (i - 1) as usize,
        ),
        s.selected == Some(0usize) ==> key_step(s, Key::Up).0.selected == Some(
            (s.sessions.len() - 1) as usize,
        ),
        s.selected is None ==> key_step(s, Key::Down).0.selected == Some(0usize) && key_step(
            s,
            Key::Up,
        ).0.selected == Some(0usize),
        key_step(s, Key::Esc) == (AppModel { mode: AppMode::Chat, ..s }, Effect::Nothing),
        key_step(s, Key::Char('l')) == (AppModel { mode: AppMode::Chat, ..s }, Effect::Nothing),
        s.selected == Some(i) ==> key_step(s, Key::Enter) == (s, Effect::LoadSession(s.sessions[i as int])),
{
}

/// Three presses of `s` on an empty chat line go round the three voices and
/// come back to the voice that was chosen.
pub proof fn lemma_voice_cycle(s: AppModel)
    requires
        s.mode == AppMode::Chat,
        s.input.len() == 0,
        voice_consistent(s),
    ensures
        key_step(key_step(key_step(s, Key::Char('s')).0, Key::Char('s')).0, Key::Char('s')).0
            == s,
{
}

/// No key press breaks the pairing of the voice id with its name.
pub proof fn lemma_voice_stays_consistent(s: AppModel, key: Key)
    requires
        voice_consistent(s),
    ensures
        voice_consistent(key_step(s, key).0),
{
}

/// A typed character is erased again by Backspace.
pub proof fn lemma_type_then_erase(s: AppModel, c: char)
    requires
        s.mode == AppMode::Chat,
        s.input.len() > 0 || !is_command_char(c),
    ensures
        key_step(s, Key::Char(c)).1 == Effect::Nothing,
        key_step(key_step(s, Key::Char(c)).0, Key::Backspace).0 == s,
{
    assert(s.input.push(c).drop_last() =~= s.input);
}

/// Enter sends exactly the typed line, and leaves the line empty.
pub proof fn lemma_enter_submits_line(s: AppModel)
    requires
        s.mode == AppMode::Chat,
        s.input.len() > 0,
    ensures
        key_step(s, Key::Enter).1 == Effect::Submit(s.input, s.model, s.speaker_id),
        key_step(s, Key::Enter).0.input.len() == 0,
{
}

/// `l` on an empty chat line opens the session list, and `l` there closes it
/// again, leaving the state as it was.
pub proof fn lemma_session_list_toggle(s: AppModel)
    requires
        s.mode == AppMode::Chat,
        s.input.len() == 0,
    ensures
        key_step(s, Key::Char('l')).1 == Effect::OpenSessionList,
        key_step(s, Key::Char('l')).0.mode == AppMode::SessionSelect,
        key_step(key_step(s, Key::Char('l')).0, Key::Char('l')).0 == s,
{
}

/// Space on an empty chat line asks to record speech and answer it with the
/// model and the voice that are chosen at that moment, whatever they are, and
/// changes nothing else.
pub proof fn lemma_space_uses_active_voice(s: AppModel)
    ensures
        s.mode == AppMode::Chat && s.input.len() == 0 ==> key_step(s, Key::Char(' ')) == (
            s,
            Effect::StartVoice(s.model, s.speaker_id),
        ),
{
}

/// After switching the voice with `s`, Space asks for the new voice: the voice
/// request follows every choice of voice.
pub proof fn lemma_space_after_voice_switch(s: AppModel)
    requires
        s.mode == AppMode::Chat,
        s.input.len() == 0,
    ensures
        key_step(key_step(s, Key::Char('s')).0, Key::Char(' ')).1 == Effect::StartVoice(
            s.model,
            key_step(s, Key::Char('s')).0.speaker_id,
        ),
        s.speaker_id == 14 ==> key_step(key_step(s, Key::Char('s')).0, Key::Char(' ')).1
            == Effect::StartVoice(s.model, 3),
{
    lemma_space_uses_active_voice(key_step(s, Key::Char('s')).0);
}

/// No key press touches the conversation, the session, the session list, the
/// status or the frame count.
pub proof fn lemma_keys_keep_history(s: AppModel, key: Key)
    ensures
        key_step(s, key).0.messages == s.messages,
        key_step(s, key).0.session_id == s.session_id,
        key_step(s, key).0.sessions == s.sessions,
        key_step(s, key).0.status == s.status,
        key_step(s, key).0.tick_count == s.tick_count,
{
}

/// Starting a new session at `timestamp`: an empty chat named `chat_<timestamp>`.
pub open spec fn new_session_step(s: AppModel, timestamp: Seq<char>) -> AppModel {
    AppModel {
        session_id: chat_prefix() + timestamp,
        messages: Seq::empty(),
        mode: AppMode::Chat,
        ..s
    }
}

/// Loading session `id` whose file gave back `loaded` (`None` where it could
/// not be read): the chat becomes that session, or nothing changes.
pub open spec fn load_step(
    s: AppModel,
    id: Seq<char>,
    loaded: Option<Seq<(Seq<char>, Seq<char>)>>,
) -> AppModel {
    match loaded {
        Some(m) => AppModel { messages: m, session_id: id, mode: AppMode::Chat, ..s },
        None => s,
    }
}

/// Switching back to a session restores it. A new session is saved to a
/// different file than the current one whenever its id differs, and loading
/// the current session again, when its file gives back the messages that were
/// saved, restores the chat as it was (on the chat screen).
pub proof fn lemma_switch_back_restores_session(
    s: AppModel,
    timestamp: Seq<char>,
    loaded: Seq<(Seq<char>, Seq<char>)>,
)
    requires
        loaded == s.messages,
    ensures
        new_session_step(s, timestamp).session_id != s.session_id ==> session_path(
            new_session_step(s, timestamp).session_id,
        ) != session_path(s.session_id),
        load_step(new_session_step(s, timestamp), s.session_id, Some(loaded)) == (AppModel {
            mode: AppMode::Chat,
            ..s
        }),
{
    let a = new_session_step(s, timestamp).session_id;
    let b = s.session_id;
    if a != b && session_path(a) == session_path(b) {
        lemma_session_path_injective(a, b);
    }
}

// ---------------------------------------------------------------------------
// Executable state
// ---------------------------------------------------------------------------

impl App {
    /// The state at start-up: an empty chat with the default model and
    /// voice, waiting for the services, with no session chosen yet.
    pub fn new() -> (app: App)
        ensures
            app@.messages.len() == 0,
            app@.status == AppStatus::StartingServices,
            app@.mode == AppMode::Chat,
            app@.input.len() == 0,
            app@.tick_count == 0,
            app@.model == qwen_model(),
            app@.speaker_id == 14,
            app@.speaker_name == himari_name(),
            app@.session_id.len() == 0,
            app@.sessions.len() == 0,
            app@.selected is None,
            voice_consistent(app@),
    {
        let app = App {
            messages: Vec::new(),
            status: AppStatus::StartingServices,
            mode: AppMode::Chat,
            input: String::new(),
            tick_count: 0,
            active_model: String::from_str("qwen2.5:3b"),
            active_speaker_id: 14,
            speaker_name: String::from_str("冥鳴ひまり"),
            current_session_id: String::new(),
            sessions: Vec::new(),
            selected: None,
        };
        assert(app@.messages =~= Seq::empty());
        assert(app@.sessions =~= Seq::empty());
        app
    }

    /// Shows the session list: a highlight past the end is pulled back to the
    /// last entry, and an empty list has none.
    pub fn show_session_list(&mut self)
        ensures
            final(self)@ == show_step(old(self)@),
    {
        let len = self.sessions.len();
        if len == 0 {
            self.selected = None;
        } else {
            match self.selected {
                Some(i) => if i >= len {
                    self.selected = Some(len - 1);
                },
                None => {},
            }
        }
    }

    /// Answers a key press: updates the state and returns the outside work to do.
    pub fn handle_key(&mut self, key: Key) -> (action: KeyAction)
        ensures
            final(self)@ == key_step(old(self)@, key).0,
            action@ == key_step(old(self)@, key).1,
            old(self)@.mode == AppMode::Chat && old(self)@.input.len() == 0 && key == Key::Char(' ')
                ==> action@ == Effect::StartVoice(old(self)@.model, old(self)@.speaker_id)
                && final(self)@ == old(self)@,
    {
        proof {
            lemma_space_uses_active_voice(old(self)@);
        }
        match self.mode {
            AppMode::SessionSelect => self.select_key(key),
            AppMode::Chat => self.chat_key(key),
        }
    }

    fn select_key(&mut self, key: Key) -> (action: KeyAction)
        requires
            old(self).mode == AppMode::SessionSelect,
        ensures
            final(self)@ == select_step(old(self)@, key).0,
            action@ == select_step(old(self)@, key).1,
    {
        let len = self.sessions.len();
        match key {
            Key::Char(c) => {
                if c == 'l' {
                    self.mode = AppMode::Chat;
                }
                KeyAction::Nothing
            },
            Key::Esc => {
                self.mode = AppMode::Chat;
                KeyAction::Nothing
            },
            Key::Up => {
                let i = match self.selected {
                    Some(i) => if i == 0 {
                        if len == 0 {
                            0
                        } else {
                            len - 1
                        }
                    } else {
                        i - 1
                    },
                    None => 0,
                };
                self.selected = Some(i);
                KeyAction::Nothing
            },
            Key::Down => {
                let i = match self.selected {
                    Some(i) => if len == 0 || i >= len - 1 {
                        0
                    } else {
                        i + 1
                    },
                    None => 0,
                };
                self.selected = Some(i);
                KeyAction::Nothing
            },
            Key::Enter => match self.selected {
                Some(i) => if i < len {
                    KeyAction::LoadSession(self.sessions[i].clone())
                } else {
                    KeyAction::Nothing
                },
                None => KeyAction::Nothing,
            },
            _ => KeyAction::Nothing,
        }
    }

    fn chat_key(&mut self, key: Key) -> (action: KeyAction)
        requires
            old(self).mode == AppMode::Chat,
        ensures
            final(self)@ == chat_step(old(self)@, key).0,
            action@ == chat_step(old(self)@, key).1,
    {
        let idle = self.input.as_str().is_empty();
        match key {
            Key::Char(c) => {
                if idle && c == 'q' {
                    KeyAction::Quit
                } else if idle && c == 'n' {
                    KeyAction::NewSession
                } else if idle && c == 'l' {
                    self.mode = AppMode::SessionSelect;
                    KeyAction::OpenSessionList
                } else if idle && c == 's' {
                    if self.active_speaker_id == 14 {
                        self.active_speaker_id = 3;
                        self.speaker_name = String::from_str("ずんだもん");
                    } else if self.active_speaker_id == 3 {
                        self.active_speaker_id = 2;
                        self.speaker_name = String::from_str("四国めたん");
                    } else {
                        self.active_speaker_id = 14;
                        self.speaker_name = String::from_str("冥鳴ひまり");
                    }
                    KeyAction::Nothing
                } else if idle && c == ' ' {
                    KeyAction::StartVoice {
                        model: self.active_model.clone(),
                        speaker_id: self.active_speaker_id,
                    }
                } else {
                    push_char(&mut self.input, c);
                    KeyAction::Nothing
                }
            },
            Key::Tab => {
                if same_text(self.active_model.as_str(), "qwen2.5:3b") {
                    self.active_model = String::from_str("phi3:mini");
                } else {
                    self.active_model = String::from_str("qwen2.5:3b");
                }
                KeyAction::Nothing
            },
            Key::Backspace => {
                let _ = pop_char(&mut self.input);
                KeyAction::Nothing
            },
            Key::Enter => {
                let mut text = String::new();
                std::mem::swap(&mut text, &mut self.input);
                if idle {
                    KeyAction::Nothing
                } else {
                    KeyAction::Submit {
                        text,
                        model: self.active_model.clone(),
                        speaker_id: self.active_speaker_id,
                    }
                }
            },
            _ => KeyAction::Nothing,
        }
    }
}


impl App {
    /// Shows `status` from now on.
    pub fn set_status(&mut self, status: AppStatus)
        ensures
            final(self)@ == (AppModel { status, ..old(self)@ }),
    {
        self.status = status;
    }

    /// Appends `message` to the conversation.
    pub fn record_message(&mut self, message: Message)
        ensures
            final(self)@ == (AppModel { messages: old(self)@.messages.push(message@), ..old(self)@ }),
    {
        self.messages.push(message);
        assert(final(self)@.messages =~= old(self)@.messages.push(message@));
    }

    /// Counts one more frame drawn and returns the new count.
    pub fn advance_tick(&mut self) -> (tick: u64)
        requires
            old(self).tick_count < u64::MAX,
        ensures
            tick == old(self).tick_count + 1,
            final(self)@ == (AppModel { tick_count: tick, ..old(self)@ }),
    {
        self.tick_count = self.tick_count + 1;
        self.tick_count
    }

    /// Replaces the session list by the sessions that the file names of the
    /// sessions directory name, newest first.
    pub fn refresh_session_list(&mut self, file_names: &Vec<String>)
        ensures
            sorted_desc(final(self)@.sessions),
            final(self)@.sessions.to_multiset() == listed_ids(texts(file_names@)).to_multiset(),
            final(self)@ == (AppModel { sessions: final(self)@.sessions, ..old(self)@ }),
    {
        self.sessions = session_ids_from_file_names(file_names);
    }

    /// Starts an empty chat whose id is made from `timestamp`
    /// (`chat_<timestamp>`). The caller saves the previous session first.
    pub fn start_new_session(&mut self, timestamp: &str)
        ensures
            final(self)@ == new_session_step(old(self)@, timestamp@),
    {
        self.current_session_id = session_id_for(timestamp);
        self.messages = Vec::new();
        self.mode = AppMode::Chat;
        assert(final(self)@.messages =~= Seq::<(Seq<char>, Seq<char>)>::empty());
    }

    /// Takes over the session `id` whose saved messages are `loaded`; where
    /// they could not be read (`None`), nothing changes.
    pub fn load_session(&mut self, id: String, loaded: Option<Vec<Message>>)
        ensures
            final(self)@ == load_step(
                old(self)@,
                id@,
                match loaded {
                    Some(m) => Some(message_views(m@)),
                    None => None,
                },
            ),
    {
        match loaded {
            Some(m) => {
                self.messages = m;
                self.current_session_id = id;
                self.mode = AppMode::Chat;
            },
            None => {},
        }
    }

    /// Where the current session is to be saved: `sessions/<id>.json`, or
    /// `None` while no session has been started.
    pub fn save_target(&self) -> (path: Option<String>)
        ensures
            path is None <==> self@.session_id.len() == 0,
            path matches Some(p) ==> p@ == session_path(self@.session_id),
    {
        if self.current_session_id.as_str().is_empty() {
            None
        } else {
            Some(session_file_path(self.current_session_id.as_str()))
        }
    }
}

} // verus!
