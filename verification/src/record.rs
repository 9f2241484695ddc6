//! The text form of records: `[key,value;key,value;...]`, in which a value
//! may itself be a bracketed text. Fields are parted at the semicolons that
//! stand outside every inner pair of brackets, and a field is parted into
//! key and value at its first comma.

use vstd::prelude::*;
use crate::text::{chars_of, string_of};
use crate::types::StringMap;

verus! {

/// A mapping of field names to texts, as sequences of characters.
pub type Fields = Seq<(Seq<char>, Seq<char>)>;

/// The values of the entries of a mapping.
pub open spec fn fields_of(map: Seq<(String, String)>) -> Fields {
    map.map_values(|e: (String, String)| (e.0@, e.1@))
}

/// The entry at `at` is the last under the name `key`.
pub open spec fn last_key(fields: Fields, key: Seq<char>, at: int) -> bool {
    &&& 0 <= at < fields.len()
    &&& fields[at].0 == key
    &&& forall|j: int| at < j < fields.len() ==> (#[trigger] fields[j]).0 != key
}

/// Some entry stands under the name `key`.
pub open spec fn names(fields: Fields, key: Seq<char>) -> bool {
    exists|at: int| last_key(fields, key, at)
}

/// The text under the name `key`: that of the last entry with that name,
/// as in a map in which a later entry takes the place of an earlier one.
#[verifier::opaque]
pub open spec fn lookup(fields: Fields, key: Seq<char>) -> Option<Seq<char>> {
    if names(fields, key) {
        Some(fields[choose|at: int| last_key(fields, key, at)].1)
    } else {
        None
    }
}

/// Looks up the text under the name `key`.
pub fn get<'a>(map: &'a StringMap, key: &str) -> (r: Option<&'a String>)
    ensures
        match r {
            Some(text) => lookup(fields_of(map@), key@) == Some(text@),
            None => lookup(fields_of(map@), key@) is None,
        },
{
    reveal(lookup);
    let mut i: usize = map.len();
    while i > 0
        invariant
            i <= map@.len(),
            forall|j: int| i <= j < map@.len() ==> (#[trigger] fields_of(map@)[j]).0 != key@,
        decreases i,
    {
        i -= 1;
        if crate::text::same_text(map[i].0.as_str(), key) {
            proof {
                lemma_lookup_at(fields_of(map@), i as int);
            }
            return Some(&map[i].1);
        }
    }
    None
}

/// How far a text has gone into brackets by its end: the number of `[` less
/// the number of `]`.
pub open spec fn level(s: Seq<char>) -> int
    decreases s.len(),
{
    if s.len() == 0 {
        0
    } else {
        level(s.drop_last()) + if s.last() == '[' {
            1int
        } else if s.last() == ']' {
            -1int
        } else {
            0int
        }
    }
}

/// Every `]` closes an earlier `[`, and every `[` is closed.
pub open spec fn balanced(s: Seq<char>) -> bool {
    &&& level(s) == 0
    &&& forall|i: int| 0 <= i <= s.len() ==> level(#[trigger] s.take(i)) >= 0
}

/// A text that can stand as a value: its brackets are balanced, and every
/// semicolon stands inside brackets.
pub open spec fn closed(s: Seq<char>) -> bool {
    &&& balanced(s)
    &&& forall|i: int| 0 <= i < s.len() && s[i] == ';' ==> level(#[trigger] s.take(i)) > 0
}

/// A text without brackets and semicolons.
pub open spec fn plain(s: Seq<char>) -> bool {
    forall|i: int| 0 <= i < s.len() ==> (#[trigger] s[i]) != '[' && s[i] != ']' && s[i] != ';'
}

/// A text that can stand as a field name: plain, and without a comma.
pub open spec fn is_name(s: Seq<char>) -> bool {
    plain(s) && forall|i: int| 0 <= i < s.len() ==> (#[trigger] s[i]) != ','
}

/// What is known after part of a text was read: the pieces that are
/// complete, the piece that is being read, how deep in brackets the reader
/// stands, and whether a `]` came that closes nothing.
pub struct Scan {
    /// The pieces that ended at a semicolon.
    pub done: Seq<Seq<char>>,
    /// The piece that is being read.
    pub current: Seq<char>,
    /// The number of brackets that are open.
    pub depth: int,
    /// A `]` came while no bracket was open.
    pub failed: bool,
}

/// Before anything is read.
pub open spec fn scan_start() -> Scan {
    Scan { done: Seq::empty(), current: Seq::empty(), depth: 0, failed: false }
}

/// Reads one more character.
pub open spec fn scan_step(st: Scan, c: char) -> Scan {
    if st.failed {
        st
    } else if c == '[' {
        Scan { current: st.current.push(c), depth: st.depth + 1, ..st }
    } else if c == ']' {
        if st.depth <= 0 {
            Scan { failed: true, ..st }
        } else {
            Scan { current: st.current.push(c), depth: st.depth - 1, ..st }
        }
    } else if c == ';' && st.depth == 0 {
        Scan { done: st.done.push(st.current), current: Seq::empty(), ..st }
    } else {
        Scan { current: st.current.push(c), ..st }
    }
}

/// Reads a text, character by character.
pub open spec fn scan_from(st: Scan, s: Seq<char>) -> Scan
    decreases s.len(),
{
    if s.len() == 0 {
        st
    } else {
        scan_step(scan_from(st, s.drop_last()), s.last())
    }
}

/// The pieces of a text between the semicolons that stand outside every
/// pair of brackets; `None` where the brackets are not balanced.
pub open spec fn split_top(s: Seq<char>) -> Option<Seq<Seq<char>>> {
    let st = scan_from(scan_start(), s);
    if st.failed || st.depth != 0 {
        None
    } else {
        Some(st.done.push(st.current))
    }
}

/// The comma at `at` is the first of the text.
pub open spec fn first_comma(s: Seq<char>, at: int) -> bool {
    &&& 0 <= at < s.len()
    &&& s[at] == ','
    &&& forall|j: int| 0 <= j < at ==> (#[trigger] s[j]) != ','
}

/// A field parted at its first comma into name and text; `None` where it
/// has no comma.
pub open spec fn split_field(s: Seq<char>) -> Option<(Seq<char>, Seq<char>)> {
    if exists|at: int| first_comma(s, at) {
        let at = choose|at: int| first_comma(s, at);
        Some((s.take(at), s.skip(at + 1)))
    } else {
        None
    }
}

/// Every piece parted into name and text; `None` where a piece has no comma.
pub open spec fn split_fields(pieces: Seq<Seq<char>>) -> Option<Fields>
    decreases pieces.len(),
{
    if pieces.len() == 0 {
        Some(Seq::empty())
    } else {
        match (split_fields(pieces.drop_last()), split_field(pieces.last())) {
            (Some(fields), Some(field)) => Some(fields.push(field)),
            _ => None,
        }
    }
}

/// The fields that a record text holds; `None` where the text is not
/// enclosed in brackets, where its brackets are not balanced, or where a
/// field has no comma.
#[verifier::opaque]
pub open spec fn parsed_record(text: Seq<char>) -> Option<Fields> {
    if text.len() < 2 || text[0] != '[' || text.last() != ']' {
        None
    } else {
        match split_top(text.subrange(1, text.len() - 1)) {
            Some(pieces) => split_fields(pieces),
            None => None,
        }
    }
}

/// A field as text: name, comma, text.
pub open spec fn field_text(field: (Seq<char>, Seq<char>)) -> Seq<char> {
    field.0 + seq![','] + field.1
}

/// The pieces put together with a semicolon between each two.
pub open spec fn joined(pieces: Seq<Seq<char>>) -> Seq<char>
    decreases pieces.len(),
{
    if pieces.len() == 0 {
        Seq::empty()
    } else if pieces.len() == 1 {
        pieces[0]
    } else {
        joined(pieces.drop_last()) + seq![';'] + pieces.last()
    }
}

/// The fields as pieces of text.
pub open spec fn field_texts(fields: Fields) -> Seq<Seq<char>> {
    fields.map_values(|f: (Seq<char>, Seq<char>)| field_text(f))
}

/// The text of a record: its fields, parted by semicolons, in brackets.
#[verifier::opaque]
pub open spec fn record_text(fields: Fields) -> Seq<char> {
    seq!['['] + joined(field_texts(fields)) + seq![']']
}

/// Appends every character of `s` to `out`.
pub fn push_text(out: &mut Vec<char>, s: &str)
    ensures
        final(out)@ == old(out)@ + s@,
{
    let chars: Vec<char> = chars_of(s);
    let mut i: usize = 0;
    while i < chars.len()
        invariant
            chars@ == s@,
            i <= chars@.len(),
            out@ == old(out)@ + chars@.take(i as int),
        decreases chars@.len() - i,
    {
        out.push(chars[i]);
        i += 1;
        assert(out@ =~= old(out)@ + chars@.take(i as int));
    }
    assert(chars@.take(i as int) =~= chars@);
}

/// Writes a record as text.
pub fn write_record(map: &StringMap) -> (text: String)
    ensures
        text@ == record_text(fields_of(map@)),
{
    reveal(record_text);
    let mut out: Vec<char> = Vec::new();
    out.push('[');
    let ghost pieces = field_texts(fields_of(map@));
    let mut i: usize = 0;
    assert(pieces.take(0) =~= Seq::<Seq<char>>::empty());
    while i < map.len()
        invariant
            i <= map@.len(),
            pieces == field_texts(fields_of(map@)),
            out@ == seq!['['] + joined(pieces.take(i as int)),
        decreases map@.len() - i,
    {
        if i > 0 {
            out.push(';');
        }
        push_text(&mut out, map[i].0.as_str());
        out.push(',');
        push_text(&mut out, map[i].1.as_str());
        proof {
            let next = pieces.take(i as int + 1);
            assert(next.drop_last() =~= pieces.take(i as int));
            assert(next.last() == field_text(fields_of(map@)[i as int]));
            if i == 0 {
                assert(joined(pieces.take(0)) =~= Seq::<char>::empty());
            }
            assert(out@ =~= seq!['['] + joined(next));
        }
        i += 1;
    }
    out.push(']');
    assert(pieces.take(i as int) =~= pieces);
    string_of(&out)
}

/// Parts a text at the semicolons that stand outside every pair of brackets.
pub fn split_pieces(s: &Vec<char>) -> (r: Option<Vec<Vec<char>>>)
    ensures
        match r {
            Some(pieces) => split_top(s@) == Some(pieces@.map_values(|p: Vec<char>| p@)),
            None => split_top(s@) is None,
        },
{
    let mut done: Vec<Vec<char>> = Vec::new();
    let mut current: Vec<char> = Vec::new();
    let mut depth: usize = 0;
    let ghost value = |p: Vec<char>| p@;
    let mut i: usize = 0;
    assert(s@.take(0) =~= Seq::<char>::empty());
    assert(done@.map_values(value) =~= Seq::<Seq<char>>::empty());
    while i < s.len()
        invariant
            i <= s@.len(),
            value == |p: Vec<char>| p@,
            depth <= i,
            scan_from(scan_start(), s@.take(i as int)) == (Scan {
                done: done@.map_values(value),
                current: current@,
                depth: depth as int,
                failed: false,
            }),
        decreases s@.len() - i,
    {
        let c: char = s[i];
        proof {
            assert(s@.take(i + 1).drop_last() =~= s@.take(i as int));
            assert(s@.take(i + 1).last() == c);
        }
        if c == '[' {
            current.push(c);
            depth += 1;
        } else if c == ']' {
            if depth == 0 {
                proof {
                    lemma_scan_failure_stays(scan_from(scan_start(), s@.take(i + 1)), s@.skip(i + 1));
                    lemma_scan_concat(scan_start(), s@.take(i + 1), s@.skip(i + 1));
                    assert(s@.take(i + 1) + s@.skip(i + 1) =~= s@);
                }
                return None;
            }
            current.push(c);
            depth -= 1;
        } else if c == ';' && depth == 0 {
            let ghost before = done@;
            done.push(current);
            assert(done@.map_values(value) =~= before.map_values(value).push(current@));
            current = Vec::new();
        } else {
            current.push(c);
        }
        i += 1;
    }
    assert(s@.take(i as int) =~= s@);
    if depth != 0 {
        return None;
    }
    let ghost before = done@;
    done.push(current);
    assert(done@.map_values(value) =~= before.map_values(value).push(current@));
    Some(done)
}

/// Once a `]` closed nothing, the reader stays failed.
pub proof fn lemma_scan_failure_stays(st: Scan, s: Seq<char>)
    requires
        st.failed,
    ensures
        scan_from(st, s).failed,
    decreases s.len(),
{
    if s.len() > 0 {
        lemma_scan_failure_stays(st, s.drop_last());
    }
}

/// Reading two texts one after the other is reading them as one.
pub proof fn lemma_scan_concat(st: Scan, a: Seq<char>, b: Seq<char>)
    ensures
        scan_from(st, a + b) == scan_from(scan_from(st, a), b),
    decreases b.len(),
{
    if b.len() == 0 {
        assert(a + b =~= a);
    } else {
        lemma_scan_concat(st, a, b.drop_last());
        assert((a + b).drop_last() =~= a + b.drop_last());
        assert((a + b).last() == b.last());
    }
}

/// Parts a field at its first comma.
pub fn split_at_comma(s: &Vec<char>) -> (r: Option<(String, String)>)
    ensures
        match r {
            Some(field) => split_field(s@) == Some((field.0@, field.1@)),
            None => split_field(s@) is None,
        },
{
    let mut i: usize = 0;
    while i < s.len()
        invariant
            i <= s@.len(),
            forall|j: int| 0 <= j < i ==> (#[trigger] s@[j]) != ',',
        decreases s@.len() - i,
    {
        if s[i] == ',' {
            assert(first_comma(s@, i as int));
            let mut key: Vec<char> = Vec::new();
            let mut k: usize = 0;
            while k < i
                invariant
                    k <= i < s@.len(),
                    key@ == s@.take(k as int),
                decreases i - k,
            {
                key.push(s[k]);
                k += 1;
                assert(key@ =~= s@.take(k as int));
            }
            let mut value: Vec<char> = Vec::new();
            let mut k: usize = i + 1;
            while k < s.len()
                invariant
                    i < k <= s@.len(),
                    value@ == s@.subrange(i + 1, k as int),
                decreases s@.len() - k,
            {
                value.push(s[k]);
                k += 1;
                assert(value@ =~= s@.subrange(i + 1, k as int));
            }
            assert(s@.subrange(i + 1, s@.len() as int) =~= s@.skip(i + 1));
            return Some((string_of(&key), string_of(&value)));
        }
        i += 1;
    }
    None
}

/// Reads a record text.
pub fn parse_record(text: &str) -> (r: Option<StringMap>)
    ensures
        match r {
            Some(map) => parsed_record(text@) == Some(fields_of(map@)),
            None => parsed_record(text@) is None,
        },
{
    reveal(parsed_record);
    let chars: Vec<char> = chars_of(text);
    let n: usize = chars.len();
    if n < 2 || chars[0] != '[' || chars[n - 1] != ']' {
        return None;
    }
    let mut inner: Vec<char> = Vec::new();
    let mut i: usize = 1;
    while i < n - 1
        invariant
            n == chars@.len(),
            2 <= n,
            1 <= i <= n - 1,
            inner@ == chars@.subrange(1, i as int),
        decreases n - i,
    {
        inner.push(chars[i]);
        i += 1;
        assert(inner@ =~= chars@.subrange(1, i as int));
    }
    let pieces: Vec<Vec<char>> = match split_pieces(&inner) {
        Some(pieces) => pieces,
        None => {
            return None;
        },
    };
    let ghost value = |p: Vec<char>| p@;
    let ghost texts = pieces@.map_values(value);
    let mut map: StringMap = Vec::new();
    let mut k: usize = 0;
    assert(texts.take(0) =~= Seq::<Seq<char>>::empty());
    assert(fields_of(map@) =~= Seq::<(Seq<char>, Seq<char>)>::empty());
    assert(parsed_record(text@) == split_fields(texts));
    while k < pieces.len()
        invariant
            k <= pieces@.len(),
            parsed_record(text@) == split_fields(texts),
            texts == pieces@.map_values(|p: Vec<char>| p@),
            split_fields(texts.take(k as int)) == Some(fields_of(map@)),
        decreases pieces@.len() - k,
    {
        proof {
            assert(texts.take(k + 1).drop_last() =~= texts.take(k as int));
            assert(texts.take(k + 1).last() == pieces@[k as int]@);
        }
        match split_at_comma(&pieces[k]) {
            Some(field) => {
                let ghost before = map@;
                map.push(field);
                assert(fields_of(map@) =~= fields_of(before).push((field.0@, field.1@)));
            },
            None => {
                proof {
                    lemma_split_fields_fails(texts, k as int);
                }
                return None;
            },
        }
        k += 1;
    }
    assert(texts.take(k as int) =~= texts);
    Some(map)
}

/// Where one piece has no comma, the pieces cannot be parted into fields.
pub proof fn lemma_split_fields_fails(pieces: Seq<Seq<char>>, at: int)
    requires
        0 <= at < pieces.len(),
        split_field(pieces[at]) is None,
    ensures
        split_fields(pieces) is None,
    decreases pieces.len(),
{
    if at < pieces.len() - 1 {
        lemma_split_fields_fails(pieces.drop_last(), at);
    }
}

/// The level of two texts, one after the other, is the sum of their levels.
pub proof fn lemma_level_concat(a: Seq<char>, b: Seq<char>)
    ensures
        level(a + b) == level(a) + level(b),
    decreases b.len(),
{
    if b.len() == 0 {
        assert(a + b =~= a);
    } else {
        lemma_level_concat(a, b.drop_last());
        assert((a + b).drop_last() =~= a + b.drop_last());
        assert((a + b).last() == b.last());
    }
}

/// The level of a single character.
pub proof fn lemma_level_single(c: char)
    ensures
        level(seq![c]) == if c == '[' {
            1int
        } else if c == ']' {
            -1int
        } else {
            0int
        },
{
    assert(seq![c].drop_last() =~= Seq::<char>::empty());
    assert(level(Seq::<char>::empty()) == 0);
}

/// A text without brackets has level 0.
pub proof fn lemma_level_plain(s: Seq<char>)
    requires
        forall|i: int| 0 <= i < s.len() ==> (#[trigger] s[i]) != '[' && s[i] != ']',
    ensures
        level(s) == 0,
    decreases s.len(),
{
    if s.len() > 0 {
        lemma_level_plain(s.drop_last());
    }
}

/// A text without brackets and semicolons can stand as a value.
pub proof fn lemma_plain_closed(s: Seq<char>)
    requires
        plain(s),
    ensures
        closed(s),
{
    lemma_level_plain(s);
    assert forall|i: int| 0 <= i <= s.len() implies level(#[trigger] s.take(i)) >= 0 by {
        lemma_level_plain(s.take(i));
    }
}

/// Two balanced texts, one after the other, are balanced.
pub proof fn lemma_balanced_concat(a: Seq<char>, b: Seq<char>)
    requires
        balanced(a),
        balanced(b),
    ensures
        balanced(a + b),
{
    lemma_level_concat(a, b);
    assert forall|i: int| 0 <= i <= (a + b).len() implies level(#[trigger] (a + b).take(i)) >= 0 by {
        if i <= a.len() {
            assert((a + b).take(i) =~= a.take(i));
        } else {
            assert((a + b).take(i) =~= a + b.take(i - a.len()));
            lemma_level_concat(a, b.take(i - a.len()));
        }
    }
}

/// Two values, one after the other, are a value.
pub proof fn lemma_closed_concat(a: Seq<char>, b: Seq<char>)
    requires
        closed(a),
        closed(b),
    ensures
        closed(a + b),
{
    lemma_balanced_concat(a, b);
    assert forall|i: int| 0 <= i < (a + b).len() && (a + b)[i] == ';' implies level(#[trigger] (a + b).take(i))
        > 0 by {
        if i < a.len() {
            assert((a + b).take(i) =~= a.take(i));
        } else {
            assert((a + b).take(i) =~= a + b.take(i - a.len()));
            lemma_level_concat(a, b.take(i - a.len()));
            assert(b[i - a.len()] == ';');
        }
    }
}

/// A balanced text in brackets is a value.
pub proof fn lemma_wrap_closed(inner: Seq<char>)
    requires
        balanced(inner),
    ensures
        closed(seq!['['] + inner + seq![']']),
{
    let open = seq!['['];
    let text = open + inner + seq![']'];
    lemma_level_single('[');
    lemma_level_single(']');
    lemma_level_concat(open, inner);
    lemma_level_concat(open + inner, seq![']']);
    assert forall|i: int| 0 <= i <= text.len() implies level(#[trigger] text.take(i)) >= 0 && (0 < i < text.len()
        ==> level(text.take(i)) > 0) by {
        if i == 0 {
            assert(text.take(i) =~= Seq::<char>::empty());
        } else if i == text.len() {
            assert(text.take(i) =~= text);
        } else {
            assert(text.take(i) =~= open + inner.take(i - 1));
            lemma_level_concat(open, inner.take(i - 1));
        }
    }
    assert forall|i: int| 0 <= i < text.len() && text[i] == ';' implies level(#[trigger] text.take(i)) > 0 by {
        assert(i != 0);
    }
}

/// Balanced pieces, put together with semicolons, are balanced.
pub proof fn lemma_joined_balanced(pieces: Seq<Seq<char>>)
    requires
        forall|i: int| 0 <= i < pieces.len() ==> balanced(#[trigger] pieces[i]),
    ensures
        balanced(joined(pieces)),
    decreases pieces.len(),
{
    if pieces.len() == 0 {
        assert(joined(pieces).take(0) =~= joined(pieces));
        assert forall|i: int| 0 <= i <= joined(pieces).len() implies level(#[trigger] joined(pieces).take(i))
            >= 0 by {
            assert(joined(pieces).take(i) =~= Seq::<char>::empty());
        }
    } else if pieces.len() > 1 {
        lemma_joined_balanced(pieces.drop_last());
        let semi = seq![';'];
        assert(balanced(semi)) by {
            lemma_level_single(';');
            assert forall|i: int| 0 <= i <= semi.len() implies level(#[trigger] semi.take(i)) >= 0 by {
                if i == 0 {
                    assert(semi.take(i) =~= Seq::<char>::empty());
                    assert(level(Seq::<char>::empty()) == 0);
                } else {
                    assert(semi.take(i) =~= semi);
                }
            }
        }
        lemma_balanced_concat(joined(pieces.drop_last()), semi);
        lemma_balanced_concat(joined(pieces.drop_last()) + semi, pieces.last());
    }
}

/// Reading a text that never closes more than is open, and whose
/// semicolons all stand inside brackets, adds the text to the piece that is
/// being read and ends no piece.
pub proof fn lemma_scan_inside(st: Scan, s: Seq<char>)
    requires
        !st.failed,
        forall|i: int| 0 <= i <= s.len() ==> st.depth + level(#[trigger] s.take(i)) >= 0,
        forall|i: int| 0 <= i < s.len() && s[i] == ';' ==> st.depth + level(#[trigger] s.take(i)) > 0,
    ensures
        scan_from(st, s) == (Scan {
            done: st.done,
            current: st.current + s,
            depth: st.depth + level(s),
            failed: false,
        }),
    decreases s.len(),
{
    if s.len() == 0 {
        assert(st.current + s =~= st.current);
    } else {
        let front = s.drop_last();
        assert forall|i: int| 0 <= i <= front.len() implies st.depth + level(#[trigger] front.take(i)) >= 0 by {
            assert(front.take(i) =~= s.take(i));
        }
        assert forall|i: int| 0 <= i < front.len() && front[i] == ';' implies st.depth + level(
            #[trigger] front.take(i),
        ) > 0 by {
            assert(front.take(i) =~= s.take(i));
            assert(s[i] == ';');
        }
        lemma_scan_inside(st, front);
        assert(s.take(s.len() - 1) =~= front);
        assert(s.take(s.len() as int) =~= s);
        assert(st.depth + level(s.take(s.len() - 1)) >= 0);
        assert(st.depth + level(s.take(s.len() as int)) >= 0);
        assert((st.current + front).push(s.last()) =~= st.current + s);
    }
}

/// Parting what was put together gives the pieces back, where every piece
/// can stand as a value.
pub proof fn lemma_scan_joined(pieces: Seq<Seq<char>>)
    requires
        pieces.len() >= 1,
        forall|i: int| 0 <= i < pieces.len() ==> closed(#[trigger] pieces[i]),
    ensures
        scan_from(scan_start(), joined(pieces)) == (Scan {
            done: pieces.drop_last(),
            current: pieces.last(),
            depth: 0,
            failed: false,
        }),
        split_top(joined(pieces)) == Some(pieces),
    decreases pieces.len(),
{
    let last = pieces.last();
    assert(closed(last));
    if pieces.len() == 1 {
        lemma_scan_inside(scan_start(), last);
        assert(scan_start().current + last =~= last);
        assert(pieces.drop_last() =~= Seq::<Seq<char>>::empty());
    } else {
        let front = pieces.drop_last();
        lemma_scan_joined(front);
        let semi = seq![';'];
        lemma_scan_concat(scan_start(), joined(front) + semi, last);
        lemma_scan_concat(scan_start(), joined(front), semi);
        let before = scan_from(scan_start(), joined(front));
        assert(semi.drop_last() =~= Seq::<char>::empty());
        assert(scan_from(before, Seq::<char>::empty()) == before);
        assert(scan_from(before, semi) == scan_step(before, ';'));
        let after = scan_from(before, semi);
        assert(after.done =~= front);
        lemma_scan_inside(after, last);
        assert(after.current + last =~= last);
    }
    assert(pieces.drop_last().push(pieces.last()) =~= pieces);
}

/// A name, a comma and a text are parted into the name and the text.
pub proof fn lemma_split_field(key: Seq<char>, value: Seq<char>)
    requires
        is_name(key),
    ensures
        split_field(field_text((key, value))) == Some((key, value)),
{
    let s = field_text((key, value));
    let at = key.len() as int;
    assert(first_comma(s, at));
    let found = choose|i: int| first_comma(s, i);
    assert(found == at) by {
        if found < at {
            assert(s[found] == key[found]);
        } else if found > at {
            assert(s[at] == ',');
        }
    }
    assert(s.take(at) =~= key);
    assert(s.skip(at + 1) =~= value);
}

/// Every field has a name that can stand as one and a text that can stand
/// as a value, and there is at least one field.
pub open spec fn well_formed(fields: Fields) -> bool {
    &&& fields.len() >= 1
    &&& forall|i: int| 0 <= i < fields.len() ==> is_name((#[trigger] fields[i]).0) && closed(fields[i].1)
}

/// The text of a well-formed field can stand as a value.
pub proof fn lemma_field_text_closed(field: (Seq<char>, Seq<char>))
    requires
        is_name(field.0),
        closed(field.1),
    ensures
        closed(field_text(field)),
{
    lemma_plain_closed(field.0);
    lemma_plain_closed(seq![',']);
    lemma_closed_concat(field.0, seq![',']);
    lemma_closed_concat(field.0 + seq![','], field.1);
}

/// Parting the texts of well-formed fields gives the fields back.
pub proof fn lemma_split_fields(fields: Fields)
    requires
        forall|i: int| 0 <= i < fields.len() ==> is_name((#[trigger] fields[i]).0),
    ensures
        split_fields(field_texts(fields)) == Some(fields),
    decreases fields.len(),
{
    if fields.len() == 0 {
        assert(fields =~= Seq::empty());
    } else {
        lemma_split_fields(fields.drop_last());
        assert(field_texts(fields).drop_last() =~= field_texts(fields.drop_last()));
        lemma_split_field(fields.last().0, fields.last().1);
        assert(fields.drop_last().push(fields.last()) =~= fields);
    }
}

/// Reading the text of a record gives its fields back, where the record is
/// well-formed.
pub proof fn lemma_record_round_trip(fields: Fields)
    requires
        well_formed(fields),
    ensures
        parsed_record(record_text(fields)) == Some(fields),
        closed(record_text(fields)),
{
    reveal(parsed_record);
    reveal(record_text);
    let pieces = field_texts(fields);
    assert forall|i: int| 0 <= i < pieces.len() implies closed(#[trigger] pieces[i]) by {
        lemma_field_text_closed(fields[i]);
    }
    lemma_scan_joined(pieces);
    lemma_split_fields(fields);
    let text = record_text(fields);
    assert(text.subrange(1, text.len() - 1) =~= joined(pieces));
    lemma_joined_balanced(pieces);
    lemma_wrap_closed(joined(pieces));
}

/// The number under the name `key`, where the text there is a decimal
/// numeral of a number up to `max`.
pub open spec fn number_field(fields: Fields, key: Seq<char>, max: nat) -> Option<nat> {
    match lookup(fields, key) {
        Some(text) => crate::text::parsed_number(text, max),
        None => None,
    }
}

/// The text under the name `key`, or `keep` where the name is missing.
pub open spec fn text_or(fields: Fields, key: Seq<char>, keep: Seq<char>) -> Seq<char> {
    match lookup(fields, key) {
        Some(text) => text,
        None => keep,
    }
}

/// The number under the name `key`, or `keep` where the name is missing;
/// `None` where the text there is no decimal numeral of a number up to `max`.
pub open spec fn number_or(fields: Fields, key: Seq<char>, max: nat, keep: nat) -> Option<nat> {
    match lookup(fields, key) {
        Some(text) => crate::text::parsed_number(text, max),
        None => Some(keep),
    }
}

/// An entry of a mapping.
pub fn entry(key: &str, value: String) -> (e: (String, String))
    ensures
        e.0@ == key@,
        e.1@ == value@,
{
    (key.to_owned(), value)
}

/// The decimal numeral of a number is plain text.
pub proof fn lemma_decimal_plain(n: nat)
    ensures
        plain(crate::text::decimal(n)),
        closed(crate::text::decimal(n)),
{
    crate::text::lemma_decimal_round_trip(n);
    lemma_plain_closed(crate::text::decimal(n));
}

/// In a mapping, the name of an entry that no later entry shares leads to
/// the text of that entry.
pub proof fn lemma_lookup_at(fields: Fields, at: int)
    requires
        0 <= at < fields.len(),
        forall|j: int| at < j < fields.len() ==> (#[trigger] fields[j]).0 != fields[at].0,
    ensures
        lookup(fields, fields[at].0) == Some(fields[at].1),
{
    reveal(lookup);
    let key = fields[at].0;
    assert(last_key(fields, key, at));
    let found = choose|i: int| last_key(fields, key, i);
    assert(found == at) by {
        if found < at {
            assert(fields[at].0 != key);
        } else if found > at {
            assert(fields[found].0 != key);
        }
    }
}

/// Reads the text under the name `key`.
pub fn read_text(data: &StringMap, key: &str) -> (r: Option<String>)
    ensures
        match r {
            Some(text) => lookup(fields_of(data@), key@) == Some(text@),
            None => lookup(fields_of(data@), key@) is None,
        },
{
    match get(data, key) {
        Some(text) => Some(text.clone()),
        None => None,
    }
}

/// Reads the text under the name `key`, or copies `keep` where the name is
/// missing.
pub fn read_text_or(data: &StringMap, key: &str, keep: &String) -> (r: String)
    ensures
        r@ == text_or(fields_of(data@), key@, keep@),
{
    match get(data, key) {
        Some(text) => text.clone(),
        None => keep.clone(),
    }
}

/// Reads the number under the name `key`.
pub fn read_u64(data: &StringMap, key: &str) -> (r: Option<u64>)
    ensures
        match r {
            Some(n) => number_field(fields_of(data@), key@, u64::MAX as nat) == Some(n as nat),
            None => number_field(fields_of(data@), key@, u64::MAX as nat) is None,
        },
{
    match get(data, key) {
        Some(text) => crate::text::parse_u64(text.as_str()),
        None => None,
    }
}

/// Reads the number under the name `key`, or takes `keep` where the name is
/// missing.
pub fn read_u64_or(data: &StringMap, key: &str, keep: u64) -> (r: Option<u64>)
    ensures
        match r {
            Some(n) => number_or(fields_of(data@), key@, u64::MAX as nat, keep as nat) == Some(n as nat),
            None => number_or(fields_of(data@), key@, u64::MAX as nat, keep as nat) is None,
        },
{
    match get(data, key) {
        Some(text) => crate::text::parse_u64(text.as_str()),
        None => Some(keep),
    }
}

/// Reads the number under the name `key`.
pub fn read_usize(data: &StringMap, key: &str) -> (r: Option<usize>)
    ensures
        match r {
            Some(n) => number_field(fields_of(data@), key@, usize::MAX as nat) == Some(n as nat),
            None => number_field(fields_of(data@), key@, usize::MAX as nat) is None,
        },
{
    match get(data, key) {
        Some(text) => crate::text::parse_usize(text.as_str()),
        None => None,
    }
}

/// Reads the number under the name `key`, or takes `keep` where the name is
/// missing.
pub fn read_usize_or(data: &StringMap, key: &str, keep: usize) -> (r: Option<usize>)
    ensures
        match r {
            Some(n) => number_or(fields_of(data@), key@, usize::MAX as nat, keep as nat) == Some(n as nat),
            None => number_or(fields_of(data@), key@, usize::MAX as nat, keep as nat) is None,
        },
{
    match get(data, key) {
        Some(text) => crate::text::parse_usize(text.as_str()),
        None => Some(keep),
    }
}

} // verus!
