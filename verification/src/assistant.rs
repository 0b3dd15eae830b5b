//! How the assistant answers one utterance: whether to ignore it, to start the
//! music player, or to ask the language model, and with which system prompt.
use vstd::prelude::*;
use crate::app_state::Message;
use crate::session::texts;
use crate::text::{contains, contains_seq, decimal, decimal_string, lemma_contains_split};

verus! {

/// The most headlines put into a system prompt.
pub const MAX_PROMPT_NEWS: usize = 5;

/// The instructions given to the language model with every question.
pub open spec fn base_prompt() -> Seq<char> {
    "あなたは優秀なアシスタントです。必ず日本語で、短く簡潔に回答してください。"@
}

/// The line that introduces the headlines in a system prompt.
pub open spec fn news_header() -> Seq<char> {
    "\n最新ニュース:\n"@
}

/// The utterance asks for music.
pub open spec fn asks_for_music(text: Seq<char>) -> bool {
    contains_seq(text, "音楽"@) || contains_seq(text, "ミュージック"@)
}

/// An utterance asks for music exactly when 音楽 or ミュージック stands
/// somewhere in it: at its start, in its middle or at its end.
pub proof fn lemma_music_anywhere(text: Seq<char>)
    ensures
        asks_for_music(text) <==> (exists|a: Seq<char>, b: Seq<char>| text == #[trigger] (a + "音楽"@
            + b)) || (exists|a: Seq<char>, b: Seq<char>| text == #[trigger] (a + "ミュージック"@ + b)),
{
    lemma_contains_split(text, "音楽"@);
    lemma_contains_split(text, "ミュージック"@);
}

/// Whatever comes before or after it, an utterance holding 音楽 or
/// ミュージック asks for music.
pub proof fn lemma_music_word_in_context(before: Seq<char>, after: Seq<char>)
    ensures
        asks_for_music(before + "音楽"@ + after),
        asks_for_music(before + "ミュージック"@ + after),
{
    lemma_music_anywhere(before + "音楽"@ + after);
    lemma_music_anywhere(before + "ミュージック"@ + after);
}

/// The utterance asks about the news.
pub open spec fn asks_for_news(text: Seq<char>) -> bool {
    contains_seq(text, "ニュース"@) || contains_seq(text, "出来事"@)
}

/// The headlines as numbered lines: `1. <first>\n2. <second>\n...`.
pub open spec fn numbered_lines(items: Seq<Seq<char>>) -> Seq<char>
    decreases items.len(),
{
    if items.len() == 0 {
        Seq::empty()
    } else {
        numbered_lines(items.drop_last()) + decimal(items.len()) + ". "@ + items.last() + "\n"@
    }
}

/// The first five headlines, or all of them if there are fewer.
pub open spec fn prompt_news(news: Seq<Seq<char>>) -> Seq<Seq<char>> {
    if news.len() <= MAX_PROMPT_NEWS {
        news
    } else {
        news.take(MAX_PROMPT_NEWS as int)
    }
}

/// The system prompt for `text`: the instructions, followed by the numbered
/// first five headlines when the text asks about the news and there are any.
pub open spec fn system_prompt(text: Seq<char>, news: Seq<Seq<char>>) -> Seq<char> {
    if asks_for_news(text) && news.len() > 0 {
        base_prompt() + news_header() + numbered_lines(prompt_news(news))
    } else {
        base_prompt()
    }
}

/// An utterance asks about the news exactly when ニュース or 出来事 stands
/// somewhere in it.
pub proof fn lemma_news_question_anywhere(text: Seq<char>)
    ensures
        asks_for_news(text) <==> (exists|a: Seq<char>, b: Seq<char>| text == #[trigger] (a
            + "ニュース"@ + b)) || (exists|a: Seq<char>, b: Seq<char>| text == #[trigger] (a + "出来事"@
            + b)),
{
    lemma_contains_split(text, "ニュース"@);
    lemma_contains_split(text, "出来事"@);
}

/// Numbered headlines start with the first one, numbered 1: `1. <first>\n`.
pub proof fn lemma_numbering_starts_at_one(items: Seq<Seq<char>>)
    requires
        items.len() > 0,
    ensures
        ("1. "@ + items[0] + "\n"@).len() <= numbered_lines(items).len(),
        numbered_lines(items).subrange(0, ("1. "@ + items[0] + "\n"@).len() as int) == "1. "@
            + items[0] + "\n"@,
    decreases items.len(),
{
    reveal_strlit("1. ");
    let first = "1. "@ + items[0] + "\n"@;
    if items.len() == 1 {
        reveal_with_fuel(decimal, 1);
        assert(decimal(1) =~= seq!['1']);
        assert(items.drop_last() =~= Seq::<Seq<char>>::empty());
        assert(numbered_lines(Seq::<Seq<char>>::empty()) =~= Seq::<char>::empty());
        assert(numbered_lines(items.drop_last()) =~= Seq::<char>::empty());
        assert(items.last() == items[0]);
        assert(numbered_lines(items) =~= Seq::<char>::empty() + decimal(1) + ". "@ + items.last()
            + "\n"@);
        reveal_strlit(". ");
        assert(numbered_lines(items) =~= first);
    } else {
        let front = items.drop_last();
        assert(front[0] == items[0]);
        lemma_numbering_starts_at_one(front);
        let rest = decimal(items.len()) + ". "@ + items.last() + "\n"@;
        assert(numbered_lines(items) == numbered_lines(front) + rest);
        assert(numbered_lines(items).subrange(0, first.len() as int) =~= numbered_lines(
            front,
        ).subrange(0, first.len() as int));
    }
}

/// The system prompt: for a news question while there are headlines, the
/// instructions, the header and the first five headlines (all, if fewer) in
/// their order, the first numbered 1; for any other utterance the instructions
/// alone.
pub proof fn lemma_prompt_shape(text: Seq<char>, news: Seq<Seq<char>>)
    ensures
        !(asks_for_news(text) && news.len() > 0) ==> system_prompt(text, news)
            == "あなたは優秀なアシスタントです。必ず日本語で、短く簡潔に回答してください。"@,
        asks_for_news(text) && news.len() > 0 ==> system_prompt(text, news)
            == "あなたは優秀なアシスタントです。必ず日本語で、短く簡潔に回答してください。"@
            + "\n最新ニュース:\n"@ + numbered_lines(prompt_news(news)),
        prompt_news(news).len() == if news.len() <= 5 {
            news.len() as int
        } else {
            5
        },
        forall|i: int| 0 <= i < prompt_news(news).len() ==> #[trigger] prompt_news(news)[i]
            == news[i],
        news.len() > 0 ==> numbered_lines(prompt_news(news)).subrange(
            0,
            ("1. "@ + news[0] + "\n"@).len() as int,
        ) == "1. "@ + news[0] + "\n"@,
{
    if news.len() > 0 {
        assert(prompt_news(news)[0] == news[0]);
        lemma_numbering_starts_at_one(prompt_news(news));
    }
}

/// What the assistant does with one utterance.
#[derive(Debug, PartialEq, Eq)]
pub enum Interaction {
    /// The utterance is empty: nothing happens.
    Ignore,
    /// Start the music player, post `notice` and say `reply`.
    LaunchMusic { notice: String, reply: String },
    /// Ask the language model, with this system prompt.
    Converse { system_prompt: String },
}

/// A message from the user.
pub fn user_message(text: &str) -> (m: Message)
    ensures
        m@ == ("User"@, text@),
{
    Message { role: String::from_str("User"), content: String::from_str(text) }
}

/// A message spoken by the assistant.
pub fn assistant_message(text: &str) -> (m: Message)
    ensures
        m@ == ("Siri"@, text@),
{
    Message { role: String::from_str("Siri"), content: String::from_str(text) }
}

/// A notice from the program itself.
pub fn system_message(text: &str) -> (m: Message)
    ensures
        m@ == ("System"@, text@),
{
    Message { role: String::from_str("System"), content: String::from_str(text) }
}

/// Whether the utterance asks about the news (ニュース, 出来事), so that the
/// latest headlines matter for its answer.
pub fn wants_news(text: &str) -> (b: bool)
    ensures
        b == asks_for_news(text@),
{
    contains(text, "ニュース") || contains(text, "出来事")
}

/// Decides what to do with the utterance `text`, given the latest headlines.
///
/// An empty utterance is ignored; one that mentions music (音楽, ミュージック)
/// starts the music player; any other goes to the language model with the
/// system prompt [`system_prompt`].
pub fn plan_interaction(text: &str, news: &Vec<String>) -> (plan: Interaction)
    ensures
        plan is Ignore <==> text@.len() == 0,
        plan is LaunchMusic <==> text@.len() > 0 && asks_for_music(text@),
        plan is LaunchMusic <==> text@.len() > 0 && (contains_seq(text@, "音楽"@) || contains_seq(
            text@,
            "ミュージック"@,
        )),
        plan matches Interaction::LaunchMusic { notice, reply } ==> notice@
            == "音楽プレイヤーを起動します..."@ && reply@ == "はい、音楽プレイヤーを起動しますね。"@,
        plan matches Interaction::Converse { system_prompt: p } ==> p@ == system_prompt(
            text@,
            texts(news@),
        ),
{
    if text.is_empty() {
        return Interaction::Ignore;
    }
    if contains(text, "音楽") || contains(text, "ミュージック") {
        return Interaction::LaunchMusic {
            notice: String::from_str("音楽プレイヤーを起動します..."),
            reply: String::from_str("はい、音楽プレイヤーを起動しますね。"),
        };
    }
    let mut prompt = String::from_str(
        "あなたは優秀なアシスタントです。必ず日本語で、短く簡潔に回答してください。",
    );
    if wants_news(text) && news.len() > 0 {
        prompt.append("\n最新ニュース:\n");
        let k = if news.len() <= MAX_PROMPT_NEWS {
            news.len()
        } else {
            MAX_PROMPT_NEWS
        };
        let ghost all = texts(news@);
        let ghost chosen = prompt_news(all);
        assert(chosen.len() == k);
        assert(chosen.take(0) =~= Seq::<Seq<char>>::empty());
        for i in 0..k
            invariant
                k == chosen.len(),
                k <= news@.len(),
                chosen == prompt_news(texts(news@)),
                forall|j: int| 0 <= j < k ==> chosen[j] == news@[j]@,
                prompt@ == base_prompt() + news_header() + numbered_lines(chosen.take(i as int)),
        {
            let ghost before = prompt@;
            let number = decimal_string((i + 1) as u64);
            prompt.append(number.as_str());
            prompt.append(". ");
            prompt.append(news[i].as_str());
            prompt.append("\n");
            assert(chosen.take(i + 1).drop_last() =~= chosen.take(i as int));
            assert(chosen.take(i + 1).last() == news@[i as int]@);
            assert(prompt@ =~= before + decimal((i + 1) as nat) + ". "@ + news@[i as int]@
                + "\n"@);
        }
        assert(chosen.take(k as int) =~= chosen);
    }
    Interaction::Converse { system_prompt: prompt }
}

} // verus!
