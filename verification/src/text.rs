//! Text primitives over sequences of characters.
//!
//! Every contract in this crate speaks of text as a `Seq<char>`. The
//! executable code works on `Vec<char>`, so that positions are character
//! positions and never byte offsets.

use vstd::prelude::*;

verus! {

/// `needle` occurs in `hay` at position `at`.
pub open spec fn occurs_at(hay: Seq<char>, needle: Seq<char>, at: int) -> bool {
    &&& 0 <= at
    &&& at + needle.len() <= hay.len()
    &&& hay.subrange(at, at + needle.len()) == needle
}

/// `needle` is a contiguous part of `hay`.
pub open spec fn contains_text(hay: Seq<char>, needle: Seq<char>) -> bool {
    exists|at: int| occurs_at(hay, needle, at)
}

/// `at` is the position of the first occurrence of `needle` in `hay`.
pub open spec fn first_occurrence(hay: Seq<char>, needle: Seq<char>, at: int) -> bool {
    &&& occurs_at(hay, needle, at)
    &&& forall|k: int| 0 <= k < at ==> !occurs_at(hay, needle, k)
}

/// The characters of a string, one element per character.
pub fn to_chars(s: &str) -> (v: Vec<char>)
    ensures
        v@ == s@,
{
    let mut v: Vec<char> = Vec::new();
    for c in it: s.chars()
        invariant
            it.seq() == s@,
            v@ == s@.take(it.index() as int),
    {
        assert(s@.take(it.index() + 1) =~= s@.take(it.index() as int).push(c));
        v.push(c);
    }
    assert(s@.take(s@.len() as int) =~= s@);
    v
}

/// Builds a string from characters. Trusted: `String::from_iter` collects
/// the characters in order, so the string's characters are exactly `v`.
#[verifier::external_body]
pub(crate) fn from_chars(v: &Vec<char>) -> (s: String)
    ensures
        s@ == v@,
{
    String::from_iter(v.iter())
}

/// Does `needle` occur in `hay` at position `at`?
pub fn matches_at(hay: &Vec<char>, needle: &Vec<char>, at: usize) -> (r: bool)
    ensures
        r == occurs_at(hay@, needle@, at as int),
{
    if needle.len() > hay.len() || at > hay.len() - needle.len() {
        return false;
    }
    let mut i: usize = 0;
    while i < needle.len()
        invariant
            i <= needle.len(),
            at + needle.len() <= hay.len(),
            forall|k: int| 0 <= k < i ==> hay@[at + k] == needle@[k],
        decreases needle.len() - i,
    {
        if hay[at + i] != needle[i] {
            assert(hay@.subrange(at as int, at + needle.len())[i as int] != needle@[i as int]);
            return false;
        }
        i += 1;
    }
    assert(hay@.subrange(at as int, at + needle.len()) =~= needle@);
    true
}

/// The position of the first occurrence of `needle` in `hay`, if any.
pub fn find_text(hay: &Vec<char>, needle: &Vec<char>) -> (r: Option<usize>)
    ensures
        match r {
            Some(at) => first_occurrence(hay@, needle@, at as int),
            None => !contains_text(hay@, needle@),
        },
{
    if needle.len() > hay.len() {
        return None;
    }
    let last: usize = hay.len() - needle.len();
    let mut at: usize = 0;
    loop
        invariant
            at <= last,
            last == hay.len() - needle.len(),
            needle.len() <= hay.len(),
            forall|k: int| 0 <= k < at ==> !occurs_at(hay@, needle@, k),
        decreases last - at,
    {
        if matches_at(hay, needle, at) {
            return Some(at);
        }
        if at == last {
            return None;
        }
        at += 1;
    }
}

/// Is `needle` a contiguous part of `hay`?
pub fn contains(hay: &Vec<char>, needle: &Vec<char>) -> (r: bool)
    ensures
        r == contains_text(hay@, needle@),
{
    find_text(hay, needle).is_some()
}

/// Whether a character is white space: it has the Unicode property
/// `White_Space`. These are the tabulator, the line feed, the vertical
/// tabulator, the form feed, the carriage return, the space, the next
/// line, the no-break space, the Ogham space mark, the spaces of fixed
/// width from the en quad to the hair space, the line separator, the
/// paragraph separator, the narrow no-break space, the medium mathematical
/// space and the ideographic space.
pub open spec fn is_whitespace(c: char) -> bool {
    let code = c as u32;
    ||| 0x0009 <= code <= 0x000D
    ||| code == 0x0020
    ||| code == 0x0085
    ||| code == 0x00A0
    ||| code == 0x1680
    ||| 0x2000 <= code <= 0x200A
    ||| code == 0x2028
    ||| code == 0x2029
    ||| code == 0x202F
    ||| code == 0x205F
    ||| code == 0x3000
}

/// Trusted: calls `char::is_whitespace`, which tells whether the character
/// has the Unicode property `White_Space`; the contract lists the code
/// points that have it.
#[verifier::external_body]
pub(crate) fn char_is_whitespace(c: char) -> (r: bool)
    ensures
        r == is_whitespace(c),
{
    c.is_whitespace()
}

/// The lower-case form of a text, as `str::to_lowercase` gives it.
pub uninterp spec fn lowercase(s: Seq<char>) -> Seq<char>;

/// Trusted: calls `str::to_lowercase`, which returns the lower-case
/// equivalent of the text as Unicode defines it. The result depends on the
/// text alone.
#[verifier::external_body]
pub(crate) fn to_lowercase(s: &str) -> (r: String)
    ensures
        r@ == lowercase(s@),
{
    s.to_lowercase()
}

/// `s` without its leading white space.
pub open spec fn trim_start(s: Seq<char>) -> Seq<char>
    decreases s.len(),
{
    if s.len() > 0 && is_whitespace(s[0]) {
        trim_start(s.drop_first())
    } else {
        s
    }
}

/// `s` without its trailing white space.
pub open spec fn trim_end(s: Seq<char>) -> Seq<char>
    decreases s.len(),
{
    if s.len() > 0 && is_whitespace(s.last()) {
        trim_end(s.drop_last())
    } else {
        s
    }
}

/// `s` without leading and trailing white space.
pub open spec fn trimmed(s: Seq<char>) -> Seq<char> {
    trim_end(trim_start(s))
}

/// Skipping `n` leading white-space characters does not change what
/// `trim_start` gives.
pub proof fn lemma_trim_start_skip(s: Seq<char>, n: int)
    requires
        0 <= n <= s.len(),
        forall|k: int| 0 <= k < n ==> is_whitespace(s[k]),
    ensures
        trim_start(s) == trim_start(s.subrange(n, s.len() as int)),
    decreases n,
{
    if n == 0 {
        assert(s.subrange(0, s.len() as int) =~= s);
    } else {
        lemma_trim_start_skip(s.drop_first(), n - 1);
        assert(s.drop_first().subrange(n - 1, s.drop_first().len() as int) =~= s.subrange(
            n,
            s.len() as int,
        ));
    }
}

/// Dropping trailing white-space characters down to length `n` does not
/// change what `trim_end` gives.
pub proof fn lemma_trim_end_skip(s: Seq<char>, n: int)
    requires
        0 <= n <= s.len(),
        forall|k: int| n <= k < s.len() ==> is_whitespace(s[k]),
    ensures
        trim_end(s) == trim_end(s.subrange(0, n)),
    decreases s.len() - n,
{
    if n == s.len() {
        assert(s.subrange(0, n) =~= s);
    } else {
        lemma_trim_end_skip(s.drop_last(), n);
        assert(s.drop_last().subrange(0, n) =~= s.subrange(0, n));
    }
}

/// The characters of `v` from `from` up to `to`.
pub fn slice_chars(v: &Vec<char>, from: usize, to: usize) -> (r: Vec<char>)
    requires
        from <= to <= v.len(),
    ensures
        r@ == v@.subrange(from as int, to as int),
{
    let mut r: Vec<char> = Vec::new();
    let mut i: usize = from;
    while i < to
        invariant
            from <= i <= to <= v.len(),
            r@ == v@.subrange(from as int, i as int),
        decreases to - i,
    {
        r.push(v[i]);
        assert(v@.subrange(from as int, i + 1) =~= v@.subrange(from as int, i as int).push(
            v@[i as int],
        ));
        i += 1;
    }
    r
}

/// `v` without leading and trailing white space.
pub fn trim(v: &Vec<char>) -> (r: Vec<char>)
    ensures
        r@ == trimmed(v@),
{
    let mut start: usize = 0;
    while start < v.len() && char_is_whitespace(v[start])
        invariant
            start <= v.len(),
            forall|k: int| 0 <= k < start ==> is_whitespace(v@[k]),
        decreases v.len() - start,
    {
        start += 1;
    }
    let mut end: usize = v.len();
    while end > start && char_is_whitespace(v[end - 1])
        invariant
            start <= end <= v.len(),
            forall|k: int| end <= k < v.len() ==> is_whitespace(v@[k]),
        decreases end,
    {
        end -= 1;
    }
    proof {
        let rest = v@.subrange(start as int, v@.len() as int);
        lemma_trim_start_skip(v@, start as int);
        assert(trim_start(rest) == rest);
        lemma_trim_end_skip(rest, end - start);
        assert(rest.subrange(0, end - start) =~= v@.subrange(start as int, end as int));
        let kept = v@.subrange(start as int, end as int);
        assert(trim_end(kept) == kept);
    }
    slice_chars(v, start, end)
}

/// The position of the first `c` in `s`, or the length of `s` where there
/// is none.
pub open spec fn first_index_of(s: Seq<char>, c: char) -> int
    decreases s.len(),
{
    if s.len() == 0 {
        0
    } else if s[0] == c {
        0
    } else {
        1 + first_index_of(s.drop_first(), c)
    }
}

/// `first_index_of` is the least position that holds `c`.
pub proof fn lemma_first_index_of(s: Seq<char>, c: char)
    ensures
        0 <= first_index_of(s, c) <= s.len(),
        forall|k: int| 0 <= k < first_index_of(s, c) ==> s[k] != c,
        first_index_of(s, c) < s.len() ==> s[first_index_of(s, c)] == c,
    decreases s.len(),
{
    if s.len() > 0 && s[0] != c {
        lemma_first_index_of(s.drop_first(), c);
        assert forall|k: int| 0 <= k < first_index_of(s, c) implies s[k] != c by {
            if k > 0 {
                assert(s[k] == s.drop_first()[k - 1]);
            }
        }
    }
}

/// A position that holds `c` (or the end) and has no `c` before it is the
/// first index of `c`.
pub proof fn lemma_first_index_is(s: Seq<char>, c: char, n: int)
    requires
        0 <= n <= s.len(),
        forall|k: int| 0 <= k < n ==> s[k] != c,
        n < s.len() ==> s[n] == c,
    ensures
        first_index_of(s, c) == n,
{
    lemma_first_index_of(s, c);
}

/// The position of the first `c` at or after `from`, or the length of `v`.
pub fn find_char(v: &Vec<char>, from: usize, c: char) -> (r: usize)
    requires
        from <= v.len(),
    ensures
        from <= r <= v.len(),
        r - from == first_index_of(v@.subrange(from as int, v@.len() as int), c),
        forall|k: int| from <= k < r ==> v@[k] != c,
        r < v.len() ==> v@[r as int] == c,
{
    let mut i: usize = from;
    while i < v.len() && v[i] != c
        invariant
            from <= i <= v.len(),
            forall|k: int| from <= k < i ==> v@[k] != c,
        decreases v.len() - i,
    {
        i += 1;
    }
    proof {
        lemma_first_index_is(v@.subrange(from as int, v@.len() as int), c, i - from);
    }
    i
}

/// The pieces of `s` between occurrences of `c`. There is always at least
/// one piece, and a piece may be empty.
pub open spec fn split_on(s: Seq<char>, c: char) -> Seq<Seq<char>>
    decreases s.len(),
{
    let n = first_index_of(s, c);
    if 0 <= n < s.len() {
        seq![s.subrange(0, n)] + split_on(s.subrange(n + 1, s.len() as int), c)
    } else {
        seq![s]
    }
}

/// The texts that a vector of character vectors holds.
pub open spec fn texts(v: Seq<Vec<char>>) -> Seq<Seq<char>> {
    Seq::new(v.len(), |i: int| v[i]@)
}

/// Splits `v` at every `c`.
pub fn split(v: &Vec<char>, c: char) -> (r: Vec<Vec<char>>)
    ensures
        texts(r@) == split_on(v@, c),
{
    let mut r: Vec<Vec<char>> = Vec::new();
    let mut start: usize = 0;
    proof {
        assert(v@.subrange(0, v@.len() as int) =~= v@);
        assert(texts(r@) + split_on(v@, c) =~= split_on(v@, c));
    }
    loop
        invariant
            start <= v.len(),
            split_on(v@, c) == texts(r@) + split_on(
                v@.subrange(start as int, v@.len() as int),
                c,
            ),
        decreases v.len() - start,
    {
        let ghost rest = v@.subrange(start as int, v@.len() as int);
        let end = find_char(v, start, c);
        let piece = slice_chars(v, start, end);
        let ghost before = texts(r@);
        r.push(piece);
        proof {
            assert(texts(r@) =~= before.push(piece@));
            assert(rest.subrange(0, end - start) =~= v@.subrange(start as int, end as int));
        }
        if end == v.len() {
            proof {
                assert(rest.subrange(0, rest.len() as int) =~= rest);
                assert(before + seq![rest] =~= texts(r@));
            }
            return r;
        }
        proof {
            assert(rest.subrange(end - start + 1, rest.len() as int) =~= v@.subrange(
                end + 1,
                v@.len() as int,
            ));
            assert(before + (seq![piece@] + split_on(v@.subrange(end + 1, v@.len() as int), c))
                =~= texts(r@) + split_on(v@.subrange(end + 1, v@.len() as int), c));
        }
        start = end + 1;
    }
}

/// `s` without one trailing carriage return, if it has one.
pub open spec fn strip_carriage_return(s: Seq<char>) -> Seq<char> {
    if s.len() > 0 && s.last() == '\r' {
        s.drop_last()
    } else {
        s
    }
}

/// The lines of a text. A line ends at a line feed, or at a carriage return
/// directly followed by a line feed; the line ending is not part of the
/// line. A last line without a line ending is a line too, and keeps a
/// trailing carriage return. The empty text has no lines.
pub open spec fn lines_of(s: Seq<char>) -> Seq<Seq<char>>
    decreases s.len(),
{
    if s.len() == 0 {
        Seq::empty()
    } else {
        let n = first_index_of(s, '\n');
        if 0 <= n < s.len() {
            seq![strip_carriage_return(s.subrange(0, n))] + lines_of(
                s.subrange(n + 1, s.len() as int),
            )
        } else {
            seq![s]
        }
    }
}

/// The lines of `v`.
pub fn lines(v: &Vec<char>) -> (r: Vec<Vec<char>>)
    ensures
        texts(r@) == lines_of(v@),
{
    let mut r: Vec<Vec<char>> = Vec::new();
    let mut start: usize = 0;
    proof {
        assert(v@.subrange(0, v@.len() as int) =~= v@);
        assert(texts(r@) + lines_of(v@) =~= lines_of(v@));
    }
    while start < v.len()
        invariant
            start <= v.len(),
            lines_of(v@) == texts(r@) + lines_of(v@.subrange(start as int, v@.len() as int)),
        decreases v.len() - start,
    {
        let ghost rest = v@.subrange(start as int, v@.len() as int);
        let ghost before = texts(r@);
        let end = find_char(v, start, '\n');
        if end == v.len() {
            let piece = slice_chars(v, start, end);
            r.push(piece);
            proof {
                assert(piece@ =~= rest);
                assert(texts(r@) =~= before.push(piece@));
                assert(before + seq![rest] =~= texts(r@));
                assert(v@.subrange(v@.len() as int, v@.len() as int) =~= Seq::<char>::empty());
                assert(texts(r@) + Seq::<Seq<char>>::empty() =~= texts(r@));
            }
            start = end;
        } else {
            let stop: usize = if end > start && v[end - 1] == '\r' {
                end - 1
            } else {
                end
            };
            let piece = slice_chars(v, start, stop);
            r.push(piece);
            proof {
                let raw = rest.subrange(0, end - start);
                assert(raw =~= v@.subrange(start as int, end as int));
                assert(piece@ =~= strip_carriage_return(raw));
                assert(texts(r@) =~= before.push(piece@));
                assert(rest.subrange(end - start + 1, rest.len() as int) =~= v@.subrange(
                    end + 1,
                    v@.len() as int,
                ));
                assert(before + (seq![piece@] + lines_of(v@.subrange(end + 1, v@.len() as int)))
                    =~= texts(r@) + lines_of(v@.subrange(end + 1, v@.len() as int)));
            }
            start = end + 1;
        }
    }
    proof {
        assert(v@.subrange(start as int, v@.len() as int) =~= Seq::<char>::empty());
        assert(texts(r@) + Seq::<Seq<char>>::empty() =~= texts(r@));
    }
    r
}

/// `s` with every `from` replaced by `to`.
pub open spec fn replaced(s: Seq<char>, from: char, to: char) -> Seq<char> {
    Seq::new(s.len(), |i: int| if s[i] == from { to } else { s[i] })
}

/// Replaces every `from` in `v` by `to`.
pub fn replace_char(v: &Vec<char>, from: char, to: char) -> (r: Vec<char>)
    ensures
        r@ == replaced(v@, from, to),
{
    let mut r: Vec<char> = Vec::new();
    let mut i: usize = 0;
    while i < v.len()
        invariant
            i <= v.len(),
            r@.len() == i,
            forall|k: int| 0 <= k < i ==> r@[k] == (if v@[k] == from { to } else { v@[k] }),
        decreases v.len() - i,
    {
        let c = v[i];
        r.push(if c == from { to } else { c });
        i += 1;
    }
    assert(r@ =~= replaced(v@, from, to));
    r
}

/// The pieces joined, with `c` between each two neighbours.
pub open spec fn join_with(parts: Seq<Seq<char>>, c: char) -> Seq<char>
    decreases parts.len(),
{
    if parts.len() == 0 {
        Seq::empty()
    } else if parts.len() == 1 {
        parts[0]
    } else {
        join_with(parts.drop_last(), c) + seq![c] + parts.last()
    }
}

/// Joins the first `count` pieces, with `c` between each two neighbours.
pub fn join_first(parts: &Vec<Vec<char>>, count: usize, c: char) -> (r: Vec<char>)
    requires
        count <= parts.len(),
    ensures
        r@ == join_with(texts(parts@).take(count as int), c),
{
    let mut r: Vec<char> = Vec::new();
    let mut i: usize = 0;
    while i < count
        invariant
            i <= count <= parts.len(),
            r@ == join_with(texts(parts@).take(i as int), c),
        decreases count - i,
    {
        let ghost sofar = r@;
        if i > 0 {
            r.push(c);
        }
        let part = &parts[i];
        let mut j: usize = 0;
        let ghost base = r@;
        while j < part.len()
            invariant
                j <= part.len(),
                r@ == base + part@.take(j as int),
            decreases part.len() - j,
        {
            r.push(part[j]);
            assert(part@.take(j + 1) =~= part@.take(j as int).push(part@[j as int]));
            assert(base + part@.take(j + 1) =~= (base + part@.take(j as int)).push(
                part@[j as int],
            ));
            j += 1;
        }
        proof {
            assert(part@.take(part@.len() as int) =~= part@);
            let next = texts(parts@).take(i + 1);
            assert(next.drop_last() =~= texts(parts@).take(i as int));
            assert(next.last() == part@);
            if i > 0 {
                assert(base =~= sofar + seq![c]);
            } else {
                assert(base + part@ =~= part@);
            }
        }
        i += 1;
    }
    r
}

/// Do the two vectors hold the same text?
pub fn same_text(a: &Vec<char>, b: &Vec<char>) -> (r: bool)
    ensures
        r == (a@ == b@),
{
    if a.len() != b.len() {
        return false;
    }
    let r = matches_at(a, b, 0);
    assert(a@.subrange(0, a@.len() as int) =~= a@);
    r
}

/// Does the string hold exactly the characters of `v`?
pub fn str_is(s: &str, v: &Vec<char>) -> (r: bool)
    ensures
        r == (s@ == v@),
{
    let chars = to_chars(s);
    same_text(&chars, v)
}

/// The position of the first occurrence of `needle` in `hay`, where there
/// is one.
pub open spec fn first_position(hay: Seq<char>, needle: Seq<char>) -> int {
    choose|at: int| first_occurrence(hay, needle, at)
}

/// A first occurrence is the only first occurrence.
pub proof fn lemma_first_position(hay: Seq<char>, needle: Seq<char>, at: int)
    requires
        first_occurrence(hay, needle, at),
    ensures
        first_position(hay, needle) == at,
        contains_text(hay, needle),
{
    let chosen = first_position(hay, needle);
    assert(first_occurrence(hay, needle, chosen));
    if chosen < at {
        assert(!occurs_at(hay, needle, chosen));
    }
    if at < chosen {
        assert(!occurs_at(hay, needle, at));
    }
}

/// The part of `s` before the first occurrence of `sep`, or all of `s`
/// where `sep` does not occur.
pub open spec fn before_text(s: Seq<char>, sep: Seq<char>) -> Seq<char> {
    if contains_text(s, sep) {
        s.subrange(0, first_position(s, sep))
    } else {
        s
    }
}

/// The part of `v` before the first occurrence of `sep`.
pub fn before_first(v: &Vec<char>, sep: &Vec<char>) -> (r: Vec<char>)
    ensures
        r@ == before_text(v@, sep@),
{
    match find_text(v, sep) {
        Some(at) => {
            proof {
                lemma_first_position(v@, sep@, at as int);
            }
            slice_chars(v, 0, at)
        },
        None => {
            assert(v@.subrange(0, v@.len() as int) =~= v@);
            slice_chars(v, 0, v.len())
        },
    }
}

/// A text takes at least one byte and at most four bytes per character in
/// UTF-8.
pub proof fn lemma_utf8_length_bounds(s: Seq<char>)
    ensures
        s.len() <= vstd::utf8::encode_utf8(s).len() <= 4 * s.len(),
    decreases s.len(),
{
    if s.len() > 0 {
        lemma_utf8_length_bounds(s.drop_first());
    }
}

/// Trusted: calls `std::path::Path::file_name`, which returns the final
/// component of a path, if there is one; a path that ends in `..` or
/// consists of a root alone has none. Which characters part the components
/// depends on the platform, so that the contract says only what holds on
/// every platform: the file name is a part of the path.
#[verifier::external_body]
pub(crate) fn path_file_name(path: &str) -> (name: Option<String>)
    ensures
        match name {
            Some(n) => contains_text(path@, n@),
            None => true,
        },
{
    std::path::Path::new(path).file_name().and_then(|n| n.to_str()).map(|n| n.to_string())
}

/// The texts of a sequence of strings, in order.
pub open spec fn string_views(v: Seq<String>) -> Seq<Seq<char>> {
    Seq::new(v.len(), |i: int| v[i]@)
}

/// The texts of a sequence of string literals, in order.
pub open spec fn str_views(v: Seq<&'static str>) -> Seq<Seq<char>> {
    Seq::new(v.len(), |i: int| v[i]@)
}

} // verus!
