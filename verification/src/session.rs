//! Chat sessions on disk: where a session is stored, how it is named, and how
//! the directory listing becomes the list of sessions offered to the user.
use vstd::prelude::*;
use vstd::multiset::Multiset;
use crate::text::{
    lemma_lex_concat, lemma_padded_len, lemma_padded_order, padded, push_char, push_padded,
    ten_pow, concat_text, contains_seq, ends_with, ends_with_seq, lemma_lex_common_prefix, lemma_lex_total, lemma_lex_trans,
    lex_le, occurs_at, replace, replace_all, text_le,
};

verus! {

broadcast use vstd::seq_lib::group_seq_properties;

/// The directory that holds one `<id>.json` file per session.
pub open spec fn sessions_dir() -> Seq<char> {
    seq!['s', 'e', 's', 's', 'i', 'o', 'n', 's']
}

/// The extension of a session file.
pub open spec fn json_ext() -> Seq<char> {
    seq!['.', 'j', 's', 'o', 'n']
}

/// The prefix of every session id made by the assistant.
pub open spec fn chat_prefix() -> Seq<char> {
    seq!['c', 'h', 'a', 't', '_']
}

/// The file name under which session `id` is stored.
pub open spec fn session_file_name(id: Seq<char>) -> Seq<char> {
    id + json_ext()
}

/// The path under which session `id` is stored.
pub open spec fn session_path(id: Seq<char>) -> Seq<char> {
    sessions_dir() + seq!['/'] + session_file_name(id)
}

/// The session ids named by a directory listing, in listing order: each file
/// name that ends with `.json`, with every `.json` in it removed.
pub open spec fn listed_ids(names: Seq<Seq<char>>) -> Seq<Seq<char>>
    decreases names.len(),
{
    if names.len() == 0 {
        Seq::empty()
    } else {
        let rest = listed_ids(names.drop_last());
        let name = names.last();
        if ends_with_seq(name, json_ext()) {
            rest.push(replace_all(name, json_ext(), Seq::empty()))
        } else {
            rest
        }
    }
}

/// Each element sorts after or equal to every element behind it: newest first.
pub open spec fn sorted_desc(s: Seq<Seq<char>>) -> bool {
    forall|i: int, j: int| 0 <= i < j < s.len() ==> lex_le(s[j], s[i])
}

/// The views of a list of strings.
pub open spec fn texts(v: Seq<String>) -> Seq<Seq<char>> {
    v.map_values(|s: String| s@)
}

// ---------------------------------------------------------------------------
// Laws
// ---------------------------------------------------------------------------

/// Removing `.json` from the file name of a session whose id holds no `.json`
/// gives back the id.
pub proof fn lemma_strip_extension(id: Seq<char>)
    requires
        !contains_seq(id, json_ext()),
    ensures
        replace_all(session_file_name(id), json_ext(), Seq::empty()) == id,
    decreases id.len(),
{
    let e = json_ext();
    let s = id + e;
    if id.len() == 0 {
        assert(s =~= e);
        assert(s.take(5) =~= e);
        assert(s.skip(5) =~= Seq::<char>::empty());
        assert(replace_all(s, e, Seq::empty()) =~= Seq::<char>::empty() + replace_all(
            Seq::empty(),
            e,
            Seq::empty(),
        ));
    } else {
        assert(s.take(5) != e) by {
            if id.len() >= 5 {
                assert(s.take(5) =~= id.subrange(0, 5));
                assert(occurs_at(id, e, 0) ==> contains_seq(id, e));
            } else {
                let k = id.len() as int;
                assert(s.take(5)[k] == e[0]);
                assert(e[k] != e[0]);
            }
        }
        let tail = id.drop_first();
        assert(!contains_seq(tail, e)) by {
            if contains_seq(tail, e) {
                let i = choose|i: int| occurs_at(tail, e, i);
                assert(tail.subrange(i, i + 5) =~= id.subrange(i + 1, i + 6));
                assert(occurs_at(id, e, i + 1));
            }
        }
        lemma_strip_extension(tail);
        assert(s.skip(1) =~= session_file_name(tail));
        assert(seq![s[0]] + tail =~= id);
    }
}

/// What is saved is listed again: the file names of sessions whose ids hold no
/// `.json` list back exactly those ids, in the same order.
pub proof fn lemma_listing_recovers_ids(ids: Seq<Seq<char>>)
    requires
        forall|i: int| 0 <= i < ids.len() ==> !contains_seq(#[trigger] ids[i], json_ext()),
    ensures
        listed_ids(ids.map_values(|id: Seq<char>| session_file_name(id))) == ids,
    decreases ids.len(),
{
    let names = ids.map_values(|id: Seq<char>| session_file_name(id));
    if ids.len() > 0 {
        let front = ids.drop_last();
        assert(names.drop_last() =~= front.map_values(|id: Seq<char>| session_file_name(id)));
        lemma_listing_recovers_ids(front);
        let id = ids.last();
        assert(names.last() == session_file_name(id));
        assert(session_file_name(id).subrange(id.len() as int, id.len() as int + 5) =~= json_ext());
        lemma_strip_extension(id);
        assert(front.push(id) =~= ids);
    }
}

/// Different sessions are stored in different files.
pub proof fn lemma_session_path_injective(a: Seq<char>, b: Seq<char>)
    requires
        session_path(a) == session_path(b),
    ensures
        a == b,
{
    let pre = sessions_dir() + seq!['/'];
    assert(session_path(a) =~= pre + (a + json_ext()));
    assert(session_path(b) =~= pre + (b + json_ext()));
    assert(session_path(a).len() == session_path(b).len());
    assert(a.len() == b.len());
    assert forall|i: int| 0 <= i < a.len() implies a[i] == b[i] by {
        assert(session_path(a)[pre.len() + i] == a[i]);
        assert(session_path(b)[pre.len() + i] == b[i]);
    }
    assert(a =~= b);
}

/// Sessions started at later timestamps sort later: the order of two session
/// ids made from timestamps is the order of the timestamps, so the listing,
/// newest first, puts the session with the greater timestamp first.
pub proof fn lemma_session_ids_follow_timestamps(t1: Seq<char>, t2: Seq<char>)
    ensures
        lex_le(chat_prefix() + t1, chat_prefix() + t2) == lex_le(t1, t2),
{
    lemma_lex_common_prefix(chat_prefix(), t1, t2);
}

/// The time stamp in a session id: `YYYYMMDD_HHMMSS`, each field written in
/// its fixed number of digits with leading zeros.
pub open spec fn timestamp_text(t: (nat, nat, nat, nat, nat, nat)) -> Seq<char> {
    padded(t.0, 4) + (padded(t.1, 2) + (padded(t.2, 2) + (seq!['_'] + (padded(t.3, 2) + (padded(
        t.4,
        2,
    ) + padded(t.5, 2))))))
}

/// The fields of a time are in range for their digits: a year below 10000,
/// and the others below 100.
pub open spec fn time_fields_fit(t: (nat, nat, nat, nat, nat, nat)) -> bool {
    t.0 < 10000 && t.1 < 100 && t.2 < 100 && t.3 < 100 && t.4 < 100 && t.5 < 100
}

/// Time `a` is not later than time `b`, comparing year, month, day, hour,
/// minute and second in turn.
pub open spec fn not_later(a: (nat, nat, nat, nat, nat, nat), b: (nat, nat, nat, nat, nat, nat)) -> bool {
    if a.0 != b.0 {
        a.0 < b.0
    } else if a.1 != b.1 {
        a.1 < b.1
    } else if a.2 != b.2 {
        a.2 < b.2
    } else if a.3 != b.3 {
        a.3 < b.3
    } else if a.4 != b.4 {
        a.4 < b.4
    } else {
        a.5 <= b.5
    }
}

/// One field written in `w` digits, followed by the rest: compares by the
/// field, and by the rest where the fields are equal.
proof fn lemma_field_then_rest(x: nat, y: nat, w: nat, u: Seq<char>, v: Seq<char>)
    requires
        x < ten_pow(w),
        y < ten_pow(w),
    ensures
        lex_le(padded(x, w) + u, padded(y, w) + v) == if x == y {
            lex_le(u, v)
        } else {
            x < y
        },
{
    lemma_padded_len(x, w);
    lemma_padded_len(y, w);
    lemma_padded_order(x, y, w);
    lemma_lex_concat(padded(x, w), padded(y, w), u, v);
}

/// Session ids sort by the times they were made at: the id made at time `a`
/// sorts before or equal to the one made at time `b` exactly when `a` is not
/// later than `b`, so the session list, newest first, puts the latest session
/// first.
pub proof fn lemma_session_ids_sort_by_time(
    a: (nat, nat, nat, nat, nat, nat),
    b: (nat, nat, nat, nat, nat, nat),
)
    requires
        time_fields_fit(a),
        time_fields_fit(b),
    ensures
        lex_le(chat_prefix() + timestamp_text(a), chat_prefix() + timestamp_text(b)) == not_later(
            a,
            b,
        ),
{
    reveal_with_fuel(ten_pow, 5);
    lemma_lex_common_prefix(chat_prefix(), timestamp_text(a), timestamp_text(b));
    let (r5a, r5b) = (padded(a.5, 2), padded(b.5, 2));
    lemma_padded_order(a.5, b.5, 2);
    let (r4a, r4b) = (padded(a.4, 2) + r5a, padded(b.4, 2) + r5b);
    lemma_field_then_rest(a.4, b.4, 2, r5a, r5b);
    let (r3a, r3b) = (padded(a.3, 2) + r4a, padded(b.3, 2) + r4b);
    lemma_field_then_rest(a.3, b.3, 2, r4a, r4b);
    let (r_a, r_b) = (seq!['_'] + r3a, seq!['_'] + r3b);
    lemma_lex_concat(seq!['_'], seq!['_'], r3a, r3b);
    let (r2a, r2b) = (padded(a.2, 2) + r_a, padded(b.2, 2) + r_b);
    lemma_field_then_rest(a.2, b.2, 2, r_a, r_b);
    let (r1a, r1b) = (padded(a.1, 2) + r2a, padded(b.1, 2) + r2b);
    lemma_field_then_rest(a.1, b.1, 2, r2a, r2b);
    lemma_field_then_rest(a.0, b.0, 4, r1a, r1b);
}

/// Inserting into a sequence adds exactly that element to its multiset.
proof fn lemma_insert_multiset(s: Seq<Seq<char>>, p: int, x: Seq<char>)
    requires
        0 <= p <= s.len(),
    ensures
        s.insert(p, x).to_multiset() =~= s.to_multiset().insert(x),
{
    let a = s.take(p);
    let b = s.skip(p);
    assert(s.insert(p, x) =~= a + (seq![x] + b));
    assert(s =~= a + b);
    vstd::seq_lib::lemma_multiset_commutative(a, seq![x] + b);
    vstd::seq_lib::lemma_multiset_commutative(seq![x], b);
    vstd::seq_lib::lemma_multiset_commutative(a, b);
    assert(seq![x].to_multiset() =~= Multiset::empty().insert(x)) by {
        assert(seq![x] =~= Seq::<Seq<char>>::empty().push(x));
    }
}

// ---------------------------------------------------------------------------
// Executable functions
// ---------------------------------------------------------------------------

/// Inserts `x` into `v`, keeping `v` sorted newest first.
fn insert_sorted_desc(v: &mut Vec<String>, x: String)
    requires
        sorted_desc(texts(old(v)@)),
    ensures
        sorted_desc(texts(final(v)@)),
        texts(final(v)@).to_multiset() =~= texts(old(v)@).to_multiset().insert(x@),
{
    let n = v.len();
    let mut p: usize = 0;
    while p < n && !text_le(v[p].as_str(), x.as_str())
        invariant
            n == v@.len(),
            p <= n,
            forall|j: int| 0 <= j < p ==> !lex_le(#[trigger] v@[j]@, x@),
        decreases n - p,
    {
        p = p + 1;
    }
    let ghost old_t = texts(v@);
    let ghost xv = x@;
    v.insert(p, x);
    let ghost new_t = texts(v@);
    assert(new_t =~= old_t.insert(p as int, xv));
    assert forall|i: int, j: int| 0 <= i < j < new_t.len() implies lex_le(
        new_t[j],
        new_t[i],
    ) by {
        if j < p {
        } else if j == p {
            lemma_lex_total(old_t[i], xv);
        } else if i == p {
            // xv >= old_t[p] >= old_t[j - 1]
            assert(lex_le(old_t[p as int], xv));
            if j - 1 > p {
                lemma_lex_trans(old_t[j - 1], old_t[p as int], xv);
            }
        } else if i < p {
            lemma_lex_total(old_t[i], xv);
            assert(lex_le(xv, old_t[i]));
            assert(lex_le(old_t[j - 1], old_t[i]));
        } else {
            assert(lex_le(old_t[j - 1], old_t[i - 1]));
        }
    }
    proof {
        lemma_insert_multiset(old_t, p as int, xv);
    }
}

/// The session ids named by the file names of the sessions directory, newest
/// first: the names that end in `.json`, with `.json` removed, sorted in
/// descending order.
pub fn session_ids_from_file_names(names: &Vec<String>) -> (ids: Vec<String>)
    ensures
        sorted_desc(texts(ids@)),
        texts(ids@).to_multiset() == listed_ids(texts(names@)).to_multiset(),
{
    let ext: &str = ".json";
    let empty: &str = "";
    proof {
        reveal_strlit(".json");
        reveal_strlit("");
        assert(ext@ =~= json_ext());
        assert(empty@ =~= Seq::<char>::empty());
    }
    let mut out: Vec<String> = Vec::new();
    let n = names.len();
    for i in 0..n
        invariant
            n == names@.len(),
            ext@ == json_ext(),
            empty@ == Seq::<char>::empty(),
            sorted_desc(texts(out@)),
            texts(out@).to_multiset() == listed_ids(texts(names@).take(i as int)).to_multiset(),
    {
        let ghost pre = texts(names@).take(i as int);
        let ghost cur = texts(names@).take(i + 1);
        assert(cur.drop_last() =~= pre);
        assert(cur.last() == names@[i as int]@);
        let name = &names[i];
        if ends_with(name.as_str(), ext) {
            let id = replace(name.as_str(), ext, empty);
            insert_sorted_desc(&mut out, id);
            proof {
                vstd::seq_lib::to_multiset_build(listed_ids(pre), id@);
            }
        }
    }
    assert(texts(names@).take(n as int) =~= texts(names@));
    out
}

/// The time stamp `YYYYMMDD_HHMMSS` of a session started at the given time
/// (as chrono's `%Y%m%d_%H%M%S` writes it for years 0 to 9999).
pub fn session_timestamp(year: u32, month: u32, day: u32, hour: u32, minute: u32, second: u32) -> (t: String)
    ensures
        t@ == timestamp_text(
            (year as nat, month as nat, day as nat, hour as nat, minute as nat, second as nat),
        ),
{
    let mut t = String::new();
    push_padded(&mut t, year, 4);
    push_padded(&mut t, month, 2);
    push_padded(&mut t, day, 2);
    push_char(&mut t, '_');
    push_padded(&mut t, hour, 2);
    push_padded(&mut t, minute, 2);
    push_padded(&mut t, second, 2);
    assert(t@ =~= timestamp_text(
        (year as nat, month as nat, day as nat, hour as nat, minute as nat, second as nat),
    ));
    t
}

/// The id of a session started at `timestamp`: `chat_<timestamp>`.
pub fn session_id_for(timestamp: &str) -> (id: String)
    ensures
        id@ == chat_prefix() + timestamp@,
{
    proof {
        reveal_strlit("chat_");
    }
    concat_text("chat_", timestamp)
}

/// The path of the file that holds session `id`: `sessions/<id>.json`.
pub fn session_file_path(id: &str) -> (path: String)
    ensures
        path@ == session_path(id@),
{
    proof {
        reveal_strlit("sessions/");
        reveal_strlit(".json");
    }
    let mut path = String::from_str("sessions/");
    path.append(id);
    path.append(".json");
    assert(path@ =~= session_path(id@));
    path
}

} // verus!
