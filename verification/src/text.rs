//! Text as sequences of characters: scanning, splitting, trimming and
//! searching. Every function states its result over `Seq<char>`.
use crate::foreign::lowercase;
use vstd::prelude::*;

verus! {

/// A class of characters that a scan can look for.
#[derive(Clone, Copy, Debug)]
pub enum CharClass {
    /// Exactly this character.
    Just(char),
    /// A character with the Unicode `White_Space` property.
    Space,
    /// A single quote, a double quote or a blank.
    Quoting,
}

/// The code points with the Unicode `White_Space` property.
pub open spec fn is_space(c: char) -> bool {
    let n = c as u32;
    ||| 0x09 <= n <= 0x0d
    ||| n == 0x20
    ||| n == 0x85
    ||| n == 0xa0
    ||| n == 0x1680
    ||| 0x2000 <= n <= 0x200a
    ||| n == 0x2028
    ||| n == 0x2029
    ||| n == 0x202f
    ||| n == 0x205f
    ||| n == 0x3000
}

impl CharClass {
    /// Whether `c` belongs to the class.
    pub open spec fn holds(self, c: char) -> bool {
        match self {
            CharClass::Just(x) => c == x,
            CharClass::Space => is_space(c),
            CharClass::Quoting => c == '\'' || c == '"' || c == ' ',
        }
    }

    /// Tests membership of `c`.
    pub fn test(self, c: char) -> (r: bool)
        ensures
            r == self.holds(c),
    {
        match self {
            CharClass::Just(x) => c == x,
            CharClass::Space => {
                let n: u32 = c as u32;
                (0x09 <= n && n <= 0x0d) || n == 0x20 || n == 0x85 || n == 0xa0 || n == 0x1680 || (
                0x2000 <= n && n <= 0x200a) || n == 0x2028 || n == 0x2029 || n == 0x202f || n
                    == 0x205f || n == 0x3000
            },
            CharClass::Quoting => c == '\'' || c == '"' || c == ' ',
        }
    }
}

/// Index of the first character of `s` whose membership in `class` equals
/// `want`, or the length of `s` when there is none.
pub open spec fn first_index(s: Seq<char>, class: CharClass, want: bool) -> int
    decreases s.len(),
{
    if s.len() == 0 {
        0
    } else if class.holds(s[0]) == want {
        0
    } else {
        1 + first_index(s.drop_first(), class, want)
    }
}

/// One past the index of the last character of `s` whose membership in
/// `class` equals `want`, or 0 when there is none.
pub open spec fn end_index(s: Seq<char>, class: CharClass, want: bool) -> int
    decreases s.len(),
{
    if s.len() == 0 {
        0
    } else if class.holds(s.last()) == want {
        s.len() as int
    } else {
        end_index(s.drop_last(), class, want)
    }
}

/// `i` is where the first wanted character stands.
pub open spec fn is_first_index(s: Seq<char>, class: CharClass, want: bool, i: int) -> bool {
    &&& 0 <= i <= s.len()
    &&& forall|j: int| 0 <= j < i ==> class.holds(#[trigger] s[j]) != want
    &&& i < s.len() ==> class.holds(s[i]) == want
}

/// `i` is one past where the last wanted character stands.
pub open spec fn is_end_index(s: Seq<char>, class: CharClass, want: bool, i: int) -> bool {
    &&& 0 <= i <= s.len()
    &&& forall|j: int| i <= j < s.len() ==> class.holds(#[trigger] s[j]) != want
    &&& i > 0 ==> class.holds(s[i - 1]) == want
}

/// The first wanted index is the only index that `is_first_index` accepts.
pub proof fn lemma_first_index(s: Seq<char>, class: CharClass, want: bool, i: int)
    requires
        is_first_index(s, class, want, i),
    ensures
        first_index(s, class, want) == i,
    decreases s.len(),
{
    if s.len() > 0 && i > 0 {
        let t = s.drop_first();
        assert forall|j: int| 0 <= j < i - 1 implies class.holds(#[trigger] t[j]) != want by {
            assert(t[j] == s[j + 1]);
        }
        lemma_first_index(t, class, want, i - 1);
    }
}

/// The end index is the only index that `is_end_index` accepts.
pub proof fn lemma_end_index(s: Seq<char>, class: CharClass, want: bool, i: int)
    requires
        is_end_index(s, class, want, i),
    ensures
        end_index(s, class, want) == i,
    decreases s.len(),
{
    if s.len() > 0 && i < s.len() {
        let t = s.drop_last();
        assert forall|j: int| i <= j < t.len() implies class.holds(#[trigger] t[j]) != want by {
            assert(t[j] == s[j]);
        }
        if i > 0 {
            assert(t[i - 1] == s[i - 1]);
        }
        lemma_end_index(t, class, want, i);
    }
}

/// `end_index` satisfies `is_end_index`.
pub proof fn lemma_end_index_is(s: Seq<char>, class: CharClass, want: bool)
    ensures
        is_end_index(s, class, want, end_index(s, class, want)),
    decreases s.len(),
{
    if s.len() > 0 && class.holds(s.last()) != want {
        let t = s.drop_last();
        lemma_end_index_is(t, class, want);
        let i = end_index(s, class, want);
        assert forall|j: int| i <= j < s.len() implies class.holds(#[trigger] s[j]) != want by {
            if j < t.len() {
                assert(s[j] == t[j]);
            }
        }
        if i > 0 {
            assert(s[i - 1] == t[i - 1]);
        }
    }
}

/// Index of the first `c` in `s`, or the length of `s`.
pub open spec fn find(s: Seq<char>, c: char) -> int {
    first_index(s, CharClass::Just(c), true)
}

/// The text before the first `c` and the text after it, when `s` holds `c`.
pub open spec fn split_once(s: Seq<char>, c: char) -> Option<(Seq<char>, Seq<char>)> {
    let i = find(s, c);
    if 0 <= i < s.len() {
        Some((s.take(i), s.skip(i + 1)))
    } else {
        None
    }
}

/// The text before the last `c` and the text after it, when `s` holds `c`.
pub open spec fn rsplit_once(s: Seq<char>, c: char) -> Option<(Seq<char>, Seq<char>)> {
    let e = end_index(s, CharClass::Just(c), true);
    if 0 < e <= s.len() {
        Some((s.take(e - 1), s.skip(e)))
    } else {
        None
    }
}

/// The pieces of `s` between occurrences of `c`; always at least one piece.
pub open spec fn split(s: Seq<char>, c: char) -> Seq<Seq<char>>
    decreases s.len(),
{
    let i = find(s, c);
    if 0 <= i < s.len() {
        seq![s.take(i)] + split(s.skip(i + 1), c)
    } else {
        seq![s]
    }
}

/// `s` without the leading and trailing characters of `class`.
pub open spec fn trim(s: Seq<char>, class: CharClass) -> Seq<char> {
    let a = first_index(s, class, false);
    let b = end_index(s, class, false);
    if 0 <= a <= b <= s.len() {
        s.subrange(a, b)
    } else {
        Seq::empty()
    }
}

/// `s` without the trailing characters of `class`.
pub open spec fn trim_end(s: Seq<char>, class: CharClass) -> Seq<char> {
    let b = end_index(s, class, false);
    if 0 <= b <= s.len() {
        s.take(b)
    } else {
        s
    }
}

/// `p` stands in `s` at index `i`.
pub open spec fn occurs_at(s: Seq<char>, p: Seq<char>, i: int) -> bool {
    0 <= i && i + p.len() <= s.len() && s.subrange(i, i + p.len()) == p
}

/// `p` stands somewhere in `s`.
pub open spec fn contains(s: Seq<char>, p: Seq<char>) -> bool {
    exists|i: int| occurs_at(s, p, i)
}

/// `s` begins with `p`.
pub open spec fn starts_with(s: Seq<char>, p: Seq<char>) -> bool {
    occurs_at(s, p, 0)
}

/// `s` ends with `p`.
pub open spec fn ends_with(s: Seq<char>, p: Seq<char>) -> bool {
    occurs_at(s, p, s.len() - p.len())
}

/// The views of a sequence of character vectors.
pub open spec fn views(v: Seq<Vec<char>>) -> Seq<Seq<char>> {
    Seq::new(v.len(), |i: int| v[i]@)
}

/// Copies the characters of `s` into a vector.
pub fn chars_of(s: &str) -> (v: Vec<char>)
    ensures
        v@ == s@,
{
    let mut v: Vec<char> = Vec::new();
    for c in it: s.chars()
        invariant
            v@ == it.seq().take(it.index()),
            it.seq() == s@,
    {
        v.push(c);
    }
    v
}

/// Builds a string from the characters of `v`.
pub fn string_of(v: &Vec<char>) -> (s: String)
    ensures
        s@ == v@,
{
    let mut s = String::new();
    let mut i: usize = 0;
    while i < v.len()
        invariant
            i <= v.len(),
            s@ == v@.take(i as int),
        decreases v.len() - i,
    {
        s.push(v[i]);
        i += 1;
    }
    s
}

/// Scans forward from `from` for the first character whose membership in
/// `class` equals `want`.
pub fn scan(s: &Vec<char>, from: usize, class: CharClass, want: bool) -> (i: usize)
    requires
        from <= s.len(),
    ensures
        from <= i <= s.len(),
        is_first_index(s@.skip(from as int), class, want, i - from),
        i - from == first_index(s@.skip(from as int), class, want),
{
    let mut i: usize = from;
    while i < s.len() && class.test(s[i]) != want
        invariant
            from <= i <= s.len(),
            forall|j: int| from <= j < i ==> class.holds(#[trigger] s@[j]) != want,
        decreases s.len() - i,
    {
        i += 1;
    }
    proof {
        let t = s@.skip(from as int);
        assert forall|j: int| 0 <= j < i - from implies class.holds(#[trigger] t[j]) != want by {
            assert(t[j] == s@[from + j]);
        }
        lemma_first_index(t, class, want, i - from);
    }
    i
}

/// Scans backward from `to` for the last character before `to` whose
/// membership in `class` equals `want`; returns one past its index.
pub fn scan_back(s: &Vec<char>, to: usize, class: CharClass, want: bool) -> (i: usize)
    requires
        to <= s.len(),
    ensures
        i <= to,
        is_end_index(s@.take(to as int), class, want, i as int),
        i == end_index(s@.take(to as int), class, want),
{
    let mut i: usize = to;
    while i > 0 && class.test(s[i - 1]) != want
        invariant
            i <= to <= s.len(),
            forall|j: int| i <= j < to ==> class.holds(#[trigger] s@[j]) != want,
        decreases i,
    {
        i -= 1;
    }
    proof {
        let t = s@.take(to as int);
        assert forall|j: int| i <= j < t.len() implies class.holds(#[trigger] t[j]) != want by {
            assert(t[j] == s@[j]);
        }
        lemma_end_index(t, class, want, i as int);
    }
    i
}

/// Copies the characters of `s` from `from` up to `to`.
pub fn slice(s: &Vec<char>, from: usize, to: usize) -> (r: Vec<char>)
    requires
        from <= to <= s.len(),
    ensures
        r@ == s@.subrange(from as int, to as int),
{
    let mut r: Vec<char> = Vec::new();
    let mut i: usize = from;
    while i < to
        invariant
            from <= i <= to <= s.len(),
            r@ == s@.subrange(from as int, i as int),
        decreases to - i,
    {
        r.push(s[i]);
        i += 1;
    }
    r
}

/// Appends the characters of `tail` to `head`.
pub fn append(head: &mut Vec<char>, tail: &Vec<char>)
    ensures
        final(head)@ == old(head)@ + tail@,
{
    let mut i: usize = 0;
    while i < tail.len()
        invariant
            i <= tail.len(),
            head@ == old(head)@ + tail@.take(i as int),
        decreases tail.len() - i,
    {
        head.push(tail[i]);
        i += 1;
    }
    assert(tail@.take(tail.len() as int) == tail@);
}

/// Splits `s` at the first `c`.
pub fn split_once_chars(s: &Vec<char>, c: char) -> (r: Option<(Vec<char>, Vec<char>)>)
    ensures
        match r {
            Some((a, b)) => split_once(s@, c) == Some((a@, b@)),
            None => split_once(s@, c) is None,
        },
{
    let i = scan(s, 0, CharClass::Just(c), true);
    assert(s@.skip(0) == s@);
    if i < s.len() {
        let a = slice(s, 0, i);
        let b = slice(s, i + 1, s.len());
        Some((a, b))
    } else {
        None
    }
}

/// Splits `s` at the last `c`.
pub fn rsplit_once_chars(s: &Vec<char>, c: char) -> (r: Option<(Vec<char>, Vec<char>)>)
    ensures
        match r {
            Some((a, b)) => rsplit_once(s@, c) == Some((a@, b@)),
            None => rsplit_once(s@, c) is None,
        },
{
    let e = scan_back(s, s.len(), CharClass::Just(c), true);
    assert(s@.take(s.len() as int) == s@);
    if e > 0 {
        let a = slice(s, 0, e - 1);
        let b = slice(s, e, s.len());
        Some((a, b))
    } else {
        None
    }
}

/// Unfolds `split` at a known first occurrence.
pub proof fn lemma_split_step(s: Seq<char>, c: char, start: int, i: int)
    requires
        0 <= start <= i <= s.len(),
        is_first_index(s.skip(start), CharClass::Just(c), true, i - start),
    ensures
        i < s.len() ==> split(s.skip(start), c) == seq![s.subrange(start, i)] + split(
            s.skip(i + 1),
            c,
        ),
        i == s.len() ==> split(s.skip(start), c) == seq![s.subrange(start, i)],
{
    let t = s.skip(start);
    lemma_first_index(t, CharClass::Just(c), true, i - start);
    if i < s.len() {
        assert(t.take(i - start) == s.subrange(start, i));
        assert(t.skip(i - start + 1) == s.skip(i + 1));
    } else {
        assert(t == s.subrange(start, i));
    }
}

/// Splits `s` at every `c`.
pub fn split_chars(s: &Vec<char>, c: char) -> (parts: Vec<Vec<char>>)
    ensures
        views(parts@) == split(s@, c),
        parts.len() >= 1,
{
    let mut parts: Vec<Vec<char>> = Vec::new();
    let mut start: usize = 0;
    assert(s@.skip(0) == s@);
    assert(views(parts@) + split(s@.skip(0), c) == split(s@, c));
    loop
        invariant_except_break
            start <= s.len(),
            views(parts@) + split(s@.skip(start as int), c) == split(s@, c),
        ensures
            views(parts@) == split(s@, c),
            parts.len() >= 1,
        decreases s.len() - start,
    {
        let i = scan(s, start, CharClass::Just(c), true);
        let piece = slice(s, start, i);
        proof {
            lemma_split_step(s@, c, start as int, i as int);
        }
        let ghost before = views(parts@);
        parts.push(piece);
        assert(views(parts@) == before + seq![s@.subrange(start as int, i as int)]);
        if i < s.len() {
            assert(views(parts@) + split(s@.skip(i + 1), c) == before + (seq![
                s@.subrange(start as int, i as int),
            ] + split(s@.skip(i + 1), c)));
            start = i + 1;
        } else {
            break ;
        }
    }
    parts
}

/// Removes the leading and trailing characters of `class`.
pub fn trim_chars(s: &Vec<char>, class: CharClass) -> (r: Vec<char>)
    ensures
        r@ == trim(s@, class),
{
    let a = scan(s, 0, class, false);
    let b = scan_back(s, s.len(), class, false);
    assert(s@.skip(0) == s@);
    assert(s@.take(s.len() as int) == s@);
    if a <= b {
        slice(s, a, b)
    } else {
        Vec::new()
    }
}

/// Removes the trailing characters of `class`.
pub fn trim_end_chars(s: &Vec<char>, class: CharClass) -> (r: Vec<char>)
    ensures
        r@ == trim_end(s@, class),
{
    let b = scan_back(s, s.len(), class, false);
    assert(s@.take(s.len() as int) == s@);
    slice(s, 0, b)
}

/// Whether `p` stands in `s` at index `i`.
pub fn occurs_at_chars(s: &Vec<char>, p: &Vec<char>, i: usize) -> (r: bool)
    ensures
        r == occurs_at(s@, p@, i as int),
{
    if p.len() > s.len() || i > s.len() - p.len() {
        return false;
    }
    let mut k: usize = 0;
    while k < p.len()
        invariant
            k <= p.len(),
            i + p.len() <= s.len(),
            forall|j: int| 0 <= j < k ==> s@[i + j] == p@[j],
        decreases p.len() - k,
    {
        if s[i + k] != p[k] {
            proof {
                let w = s@.subrange(i as int, i + p.len());
                assert(w[k as int] == s@[i + k]);
            }
            return false;
        }
        k += 1;
    }
    assert(s@.subrange(i as int, i + p.len()) =~= p@);
    true
}

/// Whether `p` stands somewhere in `s`.
pub fn contains_chars(s: &Vec<char>, p: &Vec<char>) -> (r: bool)
    ensures
        r == contains(s@, p@),
{
    if p.len() > s.len() {
        return false;
    }
    let last: usize = s.len() - p.len();
    let mut i: usize = 0;
    loop
        invariant
            i <= last,
            last == s.len() - p.len(),
            forall|j: int| 0 <= j < i ==> !occurs_at(s@, p@, j),
        decreases last - i,
    {
        if occurs_at_chars(s, p, i) {
            return true;
        }
        if i == last {
            return false;
        }
        i += 1;
    }
}

/// Whether `s` begins with `p`.
pub fn starts_with_chars(s: &Vec<char>, p: &Vec<char>) -> (r: bool)
    ensures
        r == starts_with(s@, p@),
{
    occurs_at_chars(s, p, 0)
}

/// Whether `s` ends with `p`.
pub fn ends_with_chars(s: &Vec<char>, p: &Vec<char>) -> (r: bool)
    ensures
        r == ends_with(s@, p@),
{
    if p.len() > s.len() {
        return false;
    }
    occurs_at_chars(s, p, s.len() - p.len())
}

/// Whether two texts hold the same characters.
pub fn same_chars(a: &Vec<char>, b: &Vec<char>) -> (r: bool)
    ensures
        r == (a@ == b@),
{
    if a.len() != b.len() {
        return false;
    }
    let r = occurs_at_chars(a, b, 0);
    assert(a@.subrange(0, a.len() as int) == a@);
    r
}

/// Whether two strings hold the same text.
pub fn same_text(a: &str, b: &str) -> (r: bool)
    ensures
        r == (a@ == b@),
{
    let x = chars_of(a);
    let y = chars_of(b);
    same_chars(&x, &y)
}

/// The lowercase form of `s`.
pub fn lowercase_chars(s: &Vec<char>) -> (r: Vec<char>)
    ensures
        r@ == lowercase(s@),
{
    let text = string_of(s);
    let lowered = text.as_str().to_lowercase();
    chars_of(lowered.as_str())
}

} // verus!
