//! Splitting text at a delimiter and trimming whitespace.

use vstd::prelude::*;

verus! {

/// Whether a character is whitespace: one of the code points that Unicode
/// gives the property `White_Space`.
pub open spec fn is_space(c: char) -> bool {
    let n = c as u32;
    ||| 0x09 <= n <= 0x0D
    ||| n == 0x20
    ||| n == 0x85
    ||| n == 0xA0
    ||| n == 0x1680
    ||| 0x2000 <= n <= 0x200A
    ||| n == 0x2028
    ||| n == 0x2029
    ||| n == 0x202F
    ||| n == 0x205F
    ||| n == 0x3000
}

/// The first position from `i` on that holds no whitespace, or the length of
/// the text where there is none.
pub open spec fn skip_spaces(s: Seq<char>, i: int) -> int
    decreases s.len() - i,
{
    if 0 <= i < s.len() && is_space(s[i]) {
        skip_spaces(s, i + 1)
    } else {
        i
    }
}

/// The end of the text before `j` once the whitespace that stands right
/// before `j` is dropped, going back no further than `from`.
pub open spec fn drop_spaces(s: Seq<char>, from: int, j: int) -> int
    decreases j,
{
    if 0 <= from < j <= s.len() && is_space(s[j - 1]) {
        drop_spaces(s, from, j - 1)
    } else {
        j
    }
}

/// The text without the whitespace at its start and at its end.
pub open spec fn trimmed(s: Seq<char>) -> Seq<char> {
    let start = skip_spaces(s, 0);
    s.subrange(start, drop_spaces(s, start, s.len() as int))
}

/// Whether the delimiter stands in the text at position `i`.
pub open spec fn found_at(s: Seq<char>, delimiter: Seq<char>, i: int) -> bool {
    0 <= i && i + delimiter.len() <= s.len() && s.subrange(i, i + delimiter.len()) == delimiter
}

/// The pieces between the occurrences of a delimiter of at least one
/// character, for a piece that began at `start` and a search that has come to
/// `i`. Occurrences are taken from left to right and do not overlap.
pub open spec fn pieces_from(s: Seq<char>, delimiter: Seq<char>, start: int, i: int) -> Seq<
    Seq<char>,
>
    decreases s.len() - i,
{
    if delimiter.len() == 0 || start < 0 || i < start {
        Seq::empty()
    } else if i + delimiter.len() > s.len() {
        seq![s.subrange(start, s.len() as int)]
    } else if found_at(s, delimiter, i) {
        seq![s.subrange(start, i)] + pieces_from(
            s,
            delimiter,
            i + delimiter.len(),
            i + delimiter.len(),
        )
    } else {
        pieces_from(s, delimiter, start, i + 1)
    }
}

/// The pieces into which the delimiter splits a text. A text without the
/// delimiter is one piece. The empty delimiter stands before, between and
/// behind the characters: it splits a text into an empty piece, each character
/// by itself, and another empty piece.
pub open spec fn pieces(s: Seq<char>, delimiter: Seq<char>) -> Seq<Seq<char>> {
    if delimiter.len() == 0 {
        seq![Seq::<char>::empty()] + Seq::new(s.len(), |i: int| seq![s[i]]) + seq![
            Seq::<char>::empty(),
        ]
    } else {
        pieces_from(s, delimiter, 0, 0)
    }
}

/// Where `skip_spaces` stops: at or behind where it began, behind whitespace
/// only, and in front of a character that is none.
pub proof fn lemma_skip_spaces(s: Seq<char>, i: int)
    requires
        0 <= i <= s.len(),
    ensures
        i <= skip_spaces(s, i) <= s.len(),
        skip_spaces(s, i) < s.len() ==> !is_space(s[skip_spaces(s, i)]),
    decreases s.len() - i,
{
    if i < s.len() && is_space(s[i]) {
        lemma_skip_spaces(s, i + 1);
    }
}

/// Where `drop_spaces` stops: between `from` and where it began, and behind a
/// character that is no whitespace unless it came back to `from`.
pub proof fn lemma_drop_spaces(s: Seq<char>, from: int, j: int)
    requires
        0 <= from <= j <= s.len(),
    ensures
        from <= drop_spaces(s, from, j) <= j,
        from < drop_spaces(s, from, j) ==> !is_space(s[drop_spaces(s, from, j) - 1]),
    decreases j,
{
    if from < j && is_space(s[j - 1]) {
        lemma_drop_spaces(s, from, j - 1);
    }
}

/// Trimming a trimmed text changes nothing.
pub proof fn lemma_trim_idempotent(s: Seq<char>)
    ensures
        trimmed(trimmed(s)) == trimmed(s),
{
    let start = skip_spaces(s, 0);
    lemma_skip_spaces(s, 0);
    lemma_drop_spaces(s, start, s.len() as int);
    let end = drop_spaces(s, start, s.len() as int);
    let t = trimmed(s);
    assert(t.len() == end - start);
    if t.len() > 0 {
        assert(t[0] == s[start]);
        assert(t[t.len() - 1] == s[end - 1]);
    }
    assert(skip_spaces(t, 0) == 0);
    assert(drop_spaces(t, 0, t.len() as int) == t.len());
    assert(trimmed(t) =~= t);
}

/// Whether a character is whitespace.
pub fn is_space_char(c: char) -> (space: bool)
    ensures
        space == is_space(c),
{
    let n: u32 = c as u32;
    (0x09 <= n && n <= 0x0D) || n == 0x20 || n == 0x85 || n == 0xA0 || n == 0x1680 || (0x2000 <= n
        && n <= 0x200A) || n == 0x2028 || n == 0x2029 || n == 0x202F || n == 0x205F || n == 0x3000
}

/// The characters of a text, one by one.
pub fn chars_of(s: &str) -> (v: Vec<char>)
    ensures
        v@ == s@,
{
    let mut v: Vec<char> = Vec::new();
    for c in it: s.chars()
        invariant
            it.seq() == s@,
            v@ == it.seq().take(it.index() as int),
    {
        v.push(c);
    }
    v
}

/// The text without the whitespace at its start and at its end.
pub fn trim(s: &str) -> (out: String)
    ensures
        out@ == trimmed(s@),
{
    let chars = chars_of(s);
    let n = chars.len();
    let mut start: usize = 0;
    while start < n && is_space_char(chars[start])
        invariant
            start <= n,
            n == s@.len(),
            chars@ == s@,
            skip_spaces(s@, start as int) == skip_spaces(s@, 0),
        decreases n - start,
    {
        start += 1;
    }
    let mut end: usize = n;
    while end > start && is_space_char(chars[end - 1])
        invariant
            start <= end <= n,
            n == s@.len(),
            chars@ == s@,
            drop_spaces(s@, start as int, end as int) == drop_spaces(s@, start as int, n as int),
        decreases end,
    {
        end -= 1;
    }
    s.substring_char(start, end).to_string()
}

/// Whether the delimiter stands in the text at position `i`.
pub fn is_found_at(s: &Vec<char>, delimiter: &Vec<char>, i: usize) -> (found: bool)
    requires
        i + delimiter.len() <= s.len(),
    ensures
        found == found_at(s@, delimiter@, i as int),
{
    let mut k: usize = 0;
    while k < delimiter.len()
        invariant
            k <= delimiter.len(),
            i + delimiter.len() <= s.len(),
            forall|m: int| 0 <= m < k ==> s@[i + m] == delimiter@[m],
        decreases delimiter.len() - k,
    {
        if s[i + k] != delimiter[k] {
            assert(s@.subrange(i as int, i + delimiter.len())[k as int] != delimiter@[k as int]);
            return false;
        }
        k += 1;
    }
    assert(s@.subrange(i as int, i + delimiter.len()) =~= delimiter@);
    true
}

/// The pieces into which the delimiter splits the text.
pub fn split(s: &str, delimiter: &str) -> (out: Vec<String>)
    ensures
        out.deep_view() == pieces(s@, delimiter@),
{
    let chars = chars_of(s);
    let mark = chars_of(delimiter);
    let n = chars.len();
    let m = mark.len();
    let mut out: Vec<String> = Vec::new();
    if m == 0 {
        out.push(String::new());
        let mut i: usize = 0;
        while i < n
            invariant
                i <= n,
                n == s@.len(),
                out.deep_view() == seq![Seq::<char>::empty()] + Seq::new(
                    i as nat,
                    |k: int| seq![s@[k]],
                ),
            decreases n - i,
        {
            let ghost before = out.deep_view();
            let piece = s.substring_char(i, i + 1).to_string();
            assert(piece@ =~= seq![s@[i as int]]);
            out.push(piece);
            assert(out.deep_view() =~= before.push(seq![s@[i as int]]));
            assert(out.deep_view() =~= seq![Seq::<char>::empty()] + Seq::new(
                (i + 1) as nat,
                |k: int| seq![s@[k]],
            ));
            i += 1;
        }
        let ghost before = out.deep_view();
        out.push(String::new());
        assert(out.deep_view() =~= before.push(Seq::<char>::empty()));
        assert(out.deep_view() =~= pieces(s@, delimiter@));
        return out;
    }
    let mut start: usize = 0;
    let mut i: usize = 0;
    assert(out.deep_view() =~= Seq::<Seq<char>>::empty());
    while m <= n - i
        invariant
            start <= i <= n,
            n == s@.len(),
            m == delimiter@.len(),
            m > 0,
            chars@ == s@,
            mark@ == delimiter@,
            out.deep_view() + pieces_from(s@, delimiter@, start as int, i as int) == pieces(
                s@,
                delimiter@,
            ),
        decreases n - i,
    {
        if is_found_at(&chars, &mark, i) {
            let ghost before = out.deep_view();
            let piece = s.substring_char(start, i).to_string();
            out.push(piece);
            assert(out.deep_view() =~= before.push(s@.subrange(start as int, i as int)));
            assert(out.deep_view() + pieces_from(s@, delimiter@, i + m, i + m) =~= before
                + pieces_from(s@, delimiter@, start as int, i as int));
            i += m;
            start = i;
        } else {
            i += 1;
        }
    }
    let ghost before = out.deep_view();
    let piece = s.substring_char(start, n).to_string();
    out.push(piece);
    assert(out.deep_view() =~= before.push(s@.subrange(start as int, n as int)));
    assert(out.deep_view() =~= before + pieces_from(s@, delimiter@, start as int, i as int));
    out
}

} // verus!
