//! What is made of a speech recognizer's output: the transcript of Vosk's
//! final result, and the text of Whisper's segments.
use vstd::prelude::*;

verus! {

/// Why no transcript came out of the recognizer's result.
#[derive(Clone, Copy, Debug, PartialEq, Eq, Structural)]
pub enum TranscribeError {
    /// The recognizer gave no single final result.
    NoResult,
}

impl TranscribeError {
    /// The message that reports this error.
    pub fn message(&self) -> (m: &'static str)
        ensures
            m@ == "No transcription result"@,
    {
        match self {
            TranscribeError::NoResult => "No transcription result",
        }
    }
}

/// The transcript of the recognizer's final result: the text of its single
/// alternative, which Vosk reports as the full text of the transcript, or an
/// error where there is no single result.
pub fn transcript_from_result(result: Option<&str>) -> (r: Result<String, TranscribeError>)
    ensures
        result is None ==> r == Err::<String, TranscribeError>(TranscribeError::NoResult),
        result matches Some(t) ==> r matches Ok(s) && s@ == t@,
{
    match result {
        None => Err(TranscribeError::NoResult),
        Some(t) => Ok(String::from_str(t)),
    }
}

/// The text of the segments that could be read, joined in order.
pub open spec fn joined_segments(segments: Seq<Option<Seq<char>>>) -> Seq<char>
    decreases segments.len(),
{
    if segments.len() == 0 {
        Seq::empty()
    } else {
        joined_segments(segments.drop_last()) + match segments.last() {
            Some(s) => s,
            None => Seq::empty(),
        }
    }
}

/// The text of segments one after the other is the text of the first
/// followed by that of the second; a segment that was read gives its text and
/// one that was not gives nothing.
pub proof fn lemma_segments_in_order(a: Seq<Option<Seq<char>>>, b: Seq<Option<Seq<char>>>, t: Seq<char>)
    ensures
        joined_segments(a + b) == joined_segments(a) + joined_segments(b),
        joined_segments(seq![Some(t)]) == t,
        joined_segments(seq![None::<Seq<char>>]) == Seq::<char>::empty(),
    decreases b.len(),
{
    assert(seq![Some(t)].drop_last() =~= Seq::<Option<Seq<char>>>::empty());
    assert(seq![None::<Seq<char>>].drop_last() =~= Seq::<Option<Seq<char>>>::empty());
    assert(joined_segments(Seq::<Option<Seq<char>>>::empty()) == Seq::<char>::empty());
    assert(Seq::<char>::empty() + t =~= t);
    assert(Seq::<char>::empty() + Seq::<char>::empty() =~= Seq::<char>::empty());
    if b.len() == 0 {
        assert(a + b =~= a);
        assert(joined_segments(a) + Seq::<char>::empty() =~= joined_segments(a));
    } else {
        assert((a + b).drop_last() =~= a + b.drop_last());
        assert((a + b).last() == b.last());
        lemma_segments_in_order(a, b.drop_last(), t);
        let tail = match b.last() {
            Some(x) => x,
            None => Seq::<char>::empty(),
        };
        assert(joined_segments(a) + joined_segments(b.drop_last()) + tail =~= joined_segments(a)
            + (joined_segments(b.drop_last()) + tail));
    }
}

/// The transcript made of Whisper's segments: the text of each segment that
/// could be read, in order, with nothing between them.
pub fn join_segments(segments: &Vec<Option<String>>) -> (text: String)
    ensures
        text@ == joined_segments(segments.deep_view()),
{
    let mut text = String::new();
    let n = segments.len();
    for i in 0..n
        invariant
            n == segments@.len(),
            text@ == joined_segments(segments.deep_view().take(i as int)),
    {
        assert(segments.deep_view().take(i + 1).drop_last() =~= segments.deep_view().take(i as int));
        assert(segments.deep_view().take(i + 1).last() == segments@[i as int].deep_view());
        match &segments[i] {
            Some(s) => text.append(s.as_str()),
            None => {},
        }
        assert(text@ =~= joined_segments(segments.deep_view().take(i + 1)));
    }
    assert(segments.deep_view().take(n as int) =~= segments.deep_view());
    text
}

} // verus!
