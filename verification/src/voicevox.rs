//! The requests made to the VOICEVOX engine to turn text into speech: first
//! an audio query for the text, then the synthesis of that query.
use vstd::prelude::*;
use vstd::string::StringSliceAdditionalSpecFns;
use crate::text::{decimal, decimal_string};

verus! {

/// The bytes that a URL carries unencoded: ASCII letters, digits and `-._~`.
pub open spec fn is_unreserved(b: u8) -> bool {
    ||| 48 <= b <= 57
    ||| 65 <= b <= 90
    ||| 97 <= b <= 122
    ||| b == 45 || b == 46 || b == 95 || b == 126
}

/// The upper-case hexadecimal digit for `d < 16`.
pub open spec fn hex_digit(d: u8) -> char {
    if d < 10 {
        ((d + 48) as u8) as char
    } else {
        ((d + 55) as u8) as char
    }
}

/// The percent-encoding of `bytes`: every byte but the unreserved ones
/// written as `%` and two upper-case hexadecimal digits.
pub open spec fn percent_encode(bytes: Seq<u8>) -> Seq<char>
    decreases bytes.len(),
{
    if bytes.len() == 0 {
        Seq::empty()
    } else {
        let b = bytes.last();
        percent_encode(bytes.drop_last()) + if is_unreserved(b) {
            seq![b as char]
        } else {
            seq!['%', hex_digit(b / 16), hex_digit(b % 16)]
        }
    }
}

/// Percent-encoding works byte by byte: the encoding of two byte strings one
/// after the other is their encodings one after the other. A byte that a URL
/// carries unencoded stays the same character; any other becomes `%` and its
/// two hexadecimal digits, upper case, high digit first.
pub proof fn lemma_percent_encode_bytewise(a: Seq<u8>, b: Seq<u8>, x: u8)
    ensures
        percent_encode(a + b) == percent_encode(a) + percent_encode(b),
        is_unreserved(x) ==> percent_encode(seq![x]) == seq![x as char],
        !is_unreserved(x) ==> percent_encode(seq![x]) == seq![
            '%',
            "0123456789ABCDEF"@[(x / 16) as int],
            "0123456789ABCDEF"@[(x % 16) as int],
        ],
    decreases b.len(),
{
    reveal_strlit("0123456789ABCDEF");
    assert(seq![x].drop_last() =~= Seq::<u8>::empty());
    assert(percent_encode(Seq::<u8>::empty()) == Seq::<char>::empty());
    assert(Seq::<char>::empty() + seq![x as char] =~= seq![x as char]);
    let h = (x / 16) as u8;
    let l = (x % 16) as u8;
    assert(hex_digit(h) == "0123456789ABCDEF"@[h as int]);
    assert(hex_digit(l) == "0123456789ABCDEF"@[l as int]);
    assert(Seq::<char>::empty() + seq!['%', hex_digit(h), hex_digit(l)] =~= seq![
        '%',
        hex_digit(h),
        hex_digit(l),
    ]);
    if b.len() == 0 {
        assert(a + b =~= a);
        assert(percent_encode(a) + Seq::<char>::empty() =~= percent_encode(a));
    } else {
        assert((a + b).drop_last() =~= a + b.drop_last());
        assert((a + b).last() == b.last());
        lemma_percent_encode_bytewise(a, b.drop_last(), x);
        let y = b.last();
        let tail = if is_unreserved(y) {
            seq![y as char]
        } else {
            seq!['%', hex_digit(y / 16), hex_digit(y % 16)]
        };
        assert(percent_encode(a) + percent_encode(b.drop_last()) + tail =~= percent_encode(a) + (
        percent_encode(b.drop_last()) + tail));
    }
}

/// urlencoding's `encode`: percent-encodes the UTF-8 bytes of `text`, every
/// byte except ASCII alphanumerics and `-`, `.`, `_`, `~` (its source writes
/// `%` and the two digits from `to_hex_digit`, upper case).
#[verifier::external_body]
fn url_encode(text: &str) -> (encoded: String)
    ensures
        encoded@ == percent_encode(text.spec_bytes()),
{
    urlencoding::encode(text).into_owned()
}

/// The address of a VOICEVOX engine.
pub struct VoicevoxClient {
    base_url: String,
}

impl View for VoicevoxClient {
    type V = Seq<char>;

    closed spec fn view(&self) -> Seq<char> {
        self.base_url@
    }
}

impl VoicevoxClient {
    /// A client of the engine at `base_url` (such as `http://localhost:50021`).
    pub fn new(base_url: &str) -> (c: VoicevoxClient)
        ensures
            c@ == base_url@,
    {
        VoicevoxClient { base_url: String::from_str(base_url) }
    }

    /// The URL that asks for the audio query of `text` in voice `speaker_id`:
    /// `<base>/audio_query?text=<encoded text>&speaker=<id>`.
    pub fn audio_query_url(&self, text: &str, speaker_id: u32) -> (url: String)
        ensures
            url@ == self@ + "/audio_query?text="@ + percent_encode(text.spec_bytes())
                + "&speaker="@ + decimal(speaker_id as nat),
    {
        let mut url = String::from_str(self.base_url.as_str());
        url.append("/audio_query?text=");
        let encoded = url_encode(text);
        url.append(encoded.as_str());
        url.append("&speaker=");
        let id = decimal_string(speaker_id as u64);
        url.append(id.as_str());
        url
    }

    /// The URL that synthesises a query in voice `speaker_id`:
    /// `<base>/synthesis?speaker=<id>`.
    pub fn synthesis_url(&self, speaker_id: u32) -> (url: String)
        ensures
            url@ == self@ + "/synthesis?speaker="@ + decimal(speaker_id as nat),
    {
        let mut url = String::from_str(self.base_url.as_str());
        url.append("/synthesis?speaker=");
        let id = decimal_string(speaker_id as u64);
        url.append(id.as_str());
        url
    }
}

} // verus!
