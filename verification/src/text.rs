use vstd::prelude::*;
use vstd::slice::slice_subrange;
use vstd::string::StringExecFns;

verus! {

/// `String::push` appends one character to the end of the string.
pub assume_specification[ String::push ](s: &mut String, c: char)
    ensures
        final(s)@ == old(s)@.push(c),
;

/// The characters of `s`, in order.
pub fn chars_of(s: &str) -> (v: Vec<char>)
    ensures
        v@ == s@,
{
    let mut v: Vec<char> = Vec::new();
    for c in it: s.chars()
        invariant
            it.seq() == s@,
            v@ =~= s@.take(it.index()),
    {
        v.push(c);
    }
    v
}

/// The string made of the characters of `v`, in order.
pub fn string_of(v: &[char]) -> (s: String)
    ensures
        s@ == v@,
{
    let mut s = String::new();
    let mut i: usize = 0;
    while i < v.len()
        invariant
            i <= v.len(),
            s@ =~= v@.take(i as int),
        decreases v.len() - i,
    {
        s.push(v[i]);
        i += 1;
    }
    s
}

/// The characters with the Unicode property `White_Space`.
pub open spec fn is_whitespace(c: char) -> bool {
    let n = c as u32;
    ||| 0x09 <= n <= 0x0D
    ||| n == 0x20
    ||| n == 0x85
    ||| n == 0xA0
    ||| n == 0x1680
    ||| 0x2000 <= n <= 0x200A
    ||| n == 0x2028
    ||| n == 0x2029
    ||| n == 0x202F
    ||| n == 0x205F
    ||| n == 0x3000
}

/// Tells whether `c` is white space.
pub fn char_is_whitespace(c: char) -> (r: bool)
    ensures
        r == is_whitespace(c),
{
    let n: u32 = c as u32;
    (0x09 <= n && n <= 0x0D) || n == 0x20 || n == 0x85 || n == 0xA0 || n == 0x1680 || (0x2000 <= n
        && n <= 0x200A) || n == 0x2028 || n == 0x2029 || n == 0x202F || n == 0x205F || n == 0x3000
}

/// A set of characters that a scan can skip over or stop at.
#[derive(Clone, Copy, Debug)]
pub enum CharClass {
    /// Every white-space character.
    Whitespace,
    /// Every character that is not white space.
    NonWhitespace,
    /// One character.
    Only(char),
    /// One of two characters.
    Either(char, char),
}

impl CharClass {
    /// Whether `c` belongs to the class.
    pub open spec fn has(self, c: char) -> bool {
        match self {
            CharClass::Whitespace => is_whitespace(c),
            CharClass::NonWhitespace => !is_whitespace(c),
            CharClass::Only(a) => c == a,
            CharClass::Either(a, b) => c == a || c == b,
        }
    }

    /// Tells whether `c` belongs to the class.
    pub fn contains(&self, c: char) -> (r: bool)
        ensures
            r == self.has(c),
    {
        match self {
            CharClass::Whitespace => char_is_whitespace(c),
            CharClass::NonWhitespace => !char_is_whitespace(c),
            CharClass::Only(a) => c == *a,
            CharClass::Either(a, b) => c == *a || c == *b,
        }
    }
}

/// The first position in `lo..hi` whose character is outside `class`, or `hi`.
pub open spec fn skip_class(s: Seq<char>, class: CharClass, lo: int, hi: int) -> int
    decreases hi - lo,
{
    if 0 <= lo < hi <= s.len() && class.has(s[lo]) {
        skip_class(s, class, lo + 1, hi)
    } else {
        lo
    }
}

/// The end of the shortest prefix of `lo..hi` after which every character up
/// to `hi` is in `class`.
pub open spec fn back_class(s: Seq<char>, class: CharClass, lo: int, hi: int) -> int
    decreases hi - lo,
{
    if 0 <= lo < hi <= s.len() && class.has(s[hi - 1]) {
        back_class(s, class, lo, hi - 1)
    } else {
        hi
    }
}

/// `skip_class` passes over characters of the class only, and stops at `hi`
/// or at a character outside the class.
pub proof fn lemma_skip_class(s: Seq<char>, class: CharClass, lo: int, hi: int)
    requires
        0 <= lo <= hi <= s.len(),
    ensures
        lo <= skip_class(s, class, lo, hi) <= hi,
        forall|k: int| lo <= k < skip_class(s, class, lo, hi) ==> class.has(#[trigger] s[k]),
        skip_class(s, class, lo, hi) < hi ==> !class.has(s[skip_class(s, class, lo, hi)]),
    decreases hi - lo,
{
    if lo < hi && class.has(s[lo]) {
        lemma_skip_class(s, class, lo + 1, hi);
    }
}

/// `back_class` passes backwards over characters of the class only, and
/// stops at `lo` or behind a character outside the class.
pub proof fn lemma_back_class(s: Seq<char>, class: CharClass, lo: int, hi: int)
    requires
        0 <= lo <= hi <= s.len(),
    ensures
        lo <= back_class(s, class, lo, hi) <= hi,
        forall|k: int| back_class(s, class, lo, hi) <= k < hi ==> class.has(#[trigger] s[k]),
        lo < back_class(s, class, lo, hi) ==> !class.has(s[back_class(s, class, lo, hi) - 1]),
    decreases hi - lo,
{
    if lo < hi && class.has(s[hi - 1]) {
        lemma_back_class(s, class, lo, hi - 1);
    }
}

/// What is left after trimming neither begins nor ends with a character of
/// the class, and what was cut off holds characters of the class only.
pub proof fn lemma_trimmed(s: Seq<char>, class: CharClass)
    ensures
        trimmed(s, class).len() > 0 ==> !class.has(trimmed(s, class).first()) && !class.has(
            trimmed(s, class).last(),
        ),
        exists|a: int, b: int|
            0 <= a <= b <= s.len() && trimmed(s, class) == s.subrange(a, b) && (forall|k: int|
                0 <= k < a ==> class.has(#[trigger] s[k])) && (forall|k: int|
                b <= k < s.len() ==> class.has(#[trigger] s[k])),
{
    let a = skip_class(s, class, 0, s.len() as int);
    lemma_skip_class(s, class, 0, s.len() as int);
    let t = s.skip(a);
    let b = back_class(t, class, 0, t.len() as int);
    lemma_back_class(t, class, 0, t.len() as int);
    assert(trimmed(s, class) =~= s.subrange(a, a + b));
    assert forall|k: int| a + b <= k < s.len() implies class.has(#[trigger] s[k]) by {
        assert(t[k - a] == s[k]);
    }
    if b > 0 {
        assert(t[b - 1] == s[a + b - 1]);
        assert(t[0] == s[a]);
    }
}

/// `s` without its longest prefix of characters in `class`.
pub open spec fn trimmed_start(s: Seq<char>, class: CharClass) -> Seq<char> {
    s.skip(skip_class(s, class, 0, s.len() as int))
}

/// `s` without its longest suffix of characters in `class`.
pub open spec fn trimmed_end(s: Seq<char>, class: CharClass) -> Seq<char> {
    s.take(back_class(s, class, 0, s.len() as int))
}

/// `s` without its longest prefix and then its longest suffix of characters
/// in `class`.
pub open spec fn trimmed(s: Seq<char>, class: CharClass) -> Seq<char> {
    trimmed_end(trimmed_start(s, class), class)
}

/// `s` without leading and trailing white space.
pub open spec fn stripped(s: Seq<char>) -> Seq<char> {
    trimmed(s, CharClass::Whitespace)
}

/// Whether `s` holds nothing but white space.
pub open spec fn is_blank(s: Seq<char>) -> bool {
    stripped(s).len() == 0
}

/// Finds the first position in `lo..hi` whose character is outside `class`.
pub fn skip_while(s: &[char], class: CharClass, lo: usize, hi: usize) -> (r: usize)
    requires
        lo <= hi <= s@.len(),
    ensures
        r == skip_class(s@, class, lo as int, hi as int),
        lo <= r <= hi,
{
    let mut i: usize = lo;
    while i < hi && class.contains(s[i])
        invariant
            lo <= i <= hi <= s@.len(),
            skip_class(s@, class, lo as int, hi as int) == skip_class(s@, class, i as int, hi as int),
        decreases hi - i,
    {
        i += 1;
    }
    i
}

/// Finds where the run of characters in `class` that ends at `hi` begins,
/// not looking before `lo`.
pub fn back_while(s: &[char], class: CharClass, lo: usize, hi: usize) -> (r: usize)
    requires
        lo <= hi <= s@.len(),
    ensures
        r == back_class(s@, class, lo as int, hi as int),
        lo <= r <= hi,
{
    let mut i: usize = hi;
    while lo < i && class.contains(s[i - 1])
        invariant
            lo <= i <= hi <= s@.len(),
            back_class(s@, class, lo as int, hi as int) == back_class(s@, class, lo as int, i as int),
        decreases i - lo,
    {
        i -= 1;
    }
    i
}

/// Cuts the characters in `class` off the start of `s`.
pub fn trim_start<'a>(s: &'a [char], class: CharClass) -> (r: &'a [char])
    ensures
        r@ == trimmed_start(s@, class),
{
    let a = skip_while(s, class, 0, s.len());
    slice_subrange(s, a, s.len())
}

/// Cuts the characters in `class` off the end of `s`.
pub fn trim_end<'a>(s: &'a [char], class: CharClass) -> (r: &'a [char])
    ensures
        r@ == trimmed_end(s@, class),
{
    let b = back_while(s, class, 0, s.len());
    slice_subrange(s, 0, b)
}

/// Cuts the characters in `class` off the start and then off the end of `s`.
pub fn trim_class<'a>(s: &'a [char], class: CharClass) -> (r: &'a [char])
    ensures
        r@ == trimmed(s@, class),
{
    trim_end(trim_start(s, class), class)
}

/// Cuts the white space off both ends of `s`.
pub fn trim<'a>(s: &'a [char]) -> (r: &'a [char])
    ensures
        r@ == stripped(s@),
{
    trim_class(s, CharClass::Whitespace)
}

/// The first position at or after `from` that holds `c`, or the length of `s`.
pub open spec fn position_of(s: Seq<char>, c: char, from: int) -> int
    decreases s.len() - from,
{
    if 0 <= from < s.len() && s[from] != c {
        position_of(s, c, from + 1)
    } else if from < s.len() {
        from
    } else {
        s.len() as int
    }
}

/// `position_of` gives the first place at or after `from` that holds `c`: it
/// holds `c` unless it is the length of `s`, and no place before it does.
pub proof fn lemma_position_of(s: Seq<char>, c: char, from: int)
    requires
        0 <= from <= s.len(),
    ensures
        from <= position_of(s, c, from) <= s.len(),
        forall|k: int| from <= k < position_of(s, c, from) ==> #[trigger] s[k] != c,
        position_of(s, c, from) < s.len() ==> s[position_of(s, c, from)] == c,
    decreases s.len() - from,
{
    if from < s.len() && s[from] != c {
        lemma_position_of(s, c, from + 1);
    }
}

/// Finds the first position at or after `from` that holds `c`; the length of
/// `s` where there is none.
pub fn find_char(s: &[char], c: char, from: usize) -> (r: usize)
    requires
        from <= s@.len(),
    ensures
        r == position_of(s@, c, from as int),
        from <= r <= s@.len(),
        r < s@.len() ==> s@[r as int] == c,
{
    let mut i: usize = from;
    while i < s.len() && s[i] != c
        invariant
            from <= i <= s@.len(),
            position_of(s@, c, from as int) == position_of(s@, c, i as int),
        decreases s@.len() - i,
    {
        i += 1;
    }
    i
}

/// Whether `pat` stands in `s` at position `at`.
pub open spec fn occurs_at(s: Seq<char>, pat: Seq<char>, at: int) -> bool {
    0 <= at && at + pat.len() <= s.len() && s.subrange(at, at + pat.len()) == pat
}

/// The first position at or after `from` where `pat` stands in `s`.
pub open spec fn position_of_seq(s: Seq<char>, pat: Seq<char>, from: int) -> Option<int>
    decreases s.len() - from,
{
    if from < 0 || from + pat.len() > s.len() {
        None
    } else if occurs_at(s, pat, from) {
        Some(from)
    } else if from >= s.len() {
        None
    } else {
        position_of_seq(s, pat, from + 1)
    }
}

/// Whether `pat` stands somewhere in `s`.
pub open spec fn has_seq(s: Seq<char>, pat: Seq<char>) -> bool {
    position_of_seq(s, pat, 0) is Some
}

/// `position_of_seq` gives the first place at or after `from` where `pat`
/// stands, and none exactly where there is no such place.
pub proof fn lemma_position_of_seq(s: Seq<char>, pat: Seq<char>, from: int)
    requires
        0 <= from,
    ensures
        match position_of_seq(s, pat, from) {
            Some(i) => from <= i && occurs_at(s, pat, i) && forall|k: int|
                from <= k < i ==> !#[trigger] occurs_at(s, pat, k),
            None => forall|k: int| from <= k ==> !#[trigger] occurs_at(s, pat, k),
        },
    decreases s.len() - from,
{
    if from + pat.len() > s.len() {
    } else if occurs_at(s, pat, from) {
    } else if from >= s.len() {
        assert(s.subrange(from, from + pat.len()) =~= pat);
    } else {
        lemma_position_of_seq(s, pat, from + 1);
    }
}

/// Whether `pat` stands in `s` at position `at`.
pub fn matches_at(s: &[char], pat: &[char], at: usize) -> (r: bool)
    requires
        at <= s@.len(),
    ensures
        r == occurs_at(s@, pat@, at as int),
{
    if pat.len() > s.len() - at {
        return false;
    }
    let mut i: usize = 0;
    while i < pat.len()
        invariant
            i <= pat@.len(),
            at + pat@.len() <= s@.len() <= usize::MAX,
            forall|k: int| 0 <= k < i ==> s@[at + k] == pat@[k],
        decreases pat@.len() - i,
    {
        if s[at + i] != pat[i] {
            proof {
                assert(s@.subrange(at as int, at + pat@.len())[i as int] == s@[at + i]);
            }
            return false;
        }
        i += 1;
    }
    proof {
        assert(s@.subrange(at as int, at + pat@.len()) =~= pat@);
    }
    true
}

/// Finds the first position at or after `from` where `pat` stands.
pub fn find_seq(s: &[char], pat: &[char], from: usize) -> (r: Option<usize>)
    requires
        from <= s@.len(),
    ensures
        match r {
            Some(i) => position_of_seq(s@, pat@, from as int) == Some(i as int) && from <= i
                && i + pat@.len() <= s@.len(),
            None => position_of_seq(s@, pat@, from as int) is None,
        },
{
    if pat.len() > s.len() - from {
        return None;
    }
    let last: usize = s.len() - pat.len();
    let mut i: usize = from;
    loop
        invariant
            from <= i <= last,
            last == s@.len() - pat@.len(),
            position_of_seq(s@, pat@, from as int) == position_of_seq(s@, pat@, i as int),
        decreases last - i,
    {
        if matches_at(s, pat, i) {
            return Some(i);
        }
        if i >= last {
            proof {
                assert(position_of_seq(s@, pat@, i + 1) is None);
            }
            return None;
        }
        i += 1;
    }
}

/// Tells whether `pat` stands somewhere in `s`.
pub fn contains_seq(s: &[char], pat: &[char]) -> (r: bool)
    ensures
        r == has_seq(s@, pat@),
{
    find_seq(s, pat, 0).is_some()
}

/// Tells whether `s` begins with `pat`.
pub fn starts_with(s: &[char], pat: &[char]) -> (r: bool)
    ensures
        r == pat@.is_prefix_of(s@),
{
    let r = matches_at(s, pat, 0);
    proof {
        if pat@.len() <= s@.len() {
            assert(s@.subrange(0, pat@.len() as int) =~= s@.subrange(0, 0int + pat@.len()));
        }
    }
    r
}

/// What follows `pat` in `s`, where `s` begins with `pat`.
pub open spec fn without_prefix(s: Seq<char>, pat: Seq<char>) -> Option<Seq<char>> {
    if pat.is_prefix_of(s) {
        Some(s.skip(pat.len() as int))
    } else {
        None
    }
}

/// Cuts `pat` off the start of `s`, where `s` begins with it.
pub fn strip_prefix<'a>(s: &'a [char], pat: &[char]) -> (r: Option<&'a [char]>)
    ensures
        match r {
            Some(rest) => without_prefix(s@, pat@) == Some(rest@),
            None => without_prefix(s@, pat@) is None,
        },
{
    if starts_with(s, pat) {
        Some(slice_subrange(s, pat.len(), s.len()))
    } else {
        None
    }
}

/// The position reached from `from` by passing over `pat` as often as it
/// stands there.
pub open spec fn skip_repeats(s: Seq<char>, pat: Seq<char>, from: int) -> int
    decreases s.len() - from,
{
    if pat.len() > 0 && occurs_at(s, pat, from) {
        skip_repeats(s, pat, from + pat.len())
    } else {
        from
    }
}

/// `s` without every leading repetition of `pat`.
pub open spec fn without_leading(s: Seq<char>, pat: Seq<char>) -> Seq<char> {
    s.skip(skip_repeats(s, pat, 0))
}

/// Cuts every leading repetition of `pat` off `s`.
pub fn trim_start_seq<'a>(s: &'a [char], pat: &[char]) -> (r: &'a [char])
    ensures
        r@ == without_leading(s@, pat@),
{
    let mut i: usize = 0;
    if pat.len() == 0 || s.len() == 0 {
        return slice_subrange(s, 0, s.len());
    }
    while matches_at(s, pat, i)
        invariant
            i <= s@.len() <= usize::MAX,
            pat@.len() > 0,
            skip_repeats(s@, pat@, 0) == skip_repeats(s@, pat@, i as int),
        decreases s@.len() - i,
    {
        i += pat.len();
    }
    slice_subrange(s, i, s.len())
}

/// The character sequences that a list of slices holds.
pub open spec fn views<'a>(v: Seq<&'a [char]>) -> Seq<Seq<char>> {
    Seq::new(v.len(), |i: int| v[i]@)
}

/// The sequences of a list with one more slice are those of the list and
/// then that of the slice.
pub proof fn lemma_views_push<'a>(v: Seq<&'a [char]>, x: &'a [char])
    ensures
        views(v.push(x)) == views(v).push(x@),
{
    assert(views(v.push(x)) =~= views(v).push(x@));
}

/// The `i`-th piece, or the empty sequence where there are fewer pieces.
pub open spec fn piece(ps: Seq<Seq<char>>, i: int) -> Seq<char> {
    if 0 <= i < ps.len() {
        ps[i]
    } else {
        Seq::empty()
    }
}

/// The pieces of `s` from position `from` on, cut at every `sep`.
pub open spec fn split_from(s: Seq<char>, sep: char, from: int) -> Seq<Seq<char>>
    decreases s.len() - from,
{
    let i = position_of(s, sep, from);
    if 0 <= from <= i < s.len() {
        seq![s.subrange(from, i)] + split_from(s, sep, i + 1)
    } else {
        seq![s.subrange(from, s.len() as int)]
    }
}

/// The pieces of `s` between the occurrences of `sep`: one more piece than
/// there are separators, so the empty text has one empty piece.
pub open spec fn split_on(s: Seq<char>, sep: char) -> Seq<Seq<char>> {
    split_from(s, sep, 0)
}

/// Cuts `s` at every `sep`.
pub fn split<'a>(s: &'a [char], sep: char) -> (out: Vec<&'a [char]>)
    ensures
        views(out@) == split_on(s@, sep),
{
    let mut out: Vec<&'a [char]> = Vec::new();
    let mut from: usize = 0;
    proof {
        assert(views(out@) + split_from(s@, sep, 0) =~= split_from(s@, sep, 0));
    }
    loop
        invariant
            from <= s@.len(),
            views(out@) + split_from(s@, sep, from as int) == split_from(s@, sep, 0),
        decreases s@.len() - from,
    {
        let i = find_char(s, sep, from);
        let ghost before = out@;
        if i < s.len() {
            out.push(slice_subrange(s, from, i));
            proof {
                lemma_views_push(before, out@.last());
                assert(views(out@) + split_from(s@, sep, i + 1) =~= views(before) + split_from(
                    s@,
                    sep,
                    from as int,
                ));
            }
            from = i + 1;
        } else {
            out.push(slice_subrange(s, from, s.len()));
            proof {
                lemma_views_push(before, out@.last());
                assert(views(out@) =~= views(before) + split_from(s@, sep, from as int));
            }
            return out;
        }
    }
}

/// At most `n` pieces of `s` from position `from` on, cut at `sep`; the last
/// piece holds the rest of the text, separators included.
pub open spec fn split_limit_from(s: Seq<char>, sep: char, n: nat, from: int) -> Seq<Seq<char>>
    decreases n,
{
    let i = position_of(s, sep, from);
    if n == 0 {
        Seq::empty()
    } else if n > 1 && 0 <= from <= i < s.len() {
        seq![s.subrange(from, i)] + split_limit_from(s, sep, (n - 1) as nat, i + 1)
    } else {
        seq![s.subrange(from, s.len() as int)]
    }
}

/// At most `n` pieces of `s`, cut at the first `n - 1` occurrences of `sep`.
pub open spec fn split_limit(s: Seq<char>, sep: char, n: nat) -> Seq<Seq<char>> {
    split_limit_from(s, sep, n, 0)
}

/// Cuts `s` at the first `n - 1` occurrences of `sep`.
pub fn splitn<'a>(s: &'a [char], sep: char, n: usize) -> (out: Vec<&'a [char]>)
    ensures
        views(out@) == split_limit(s@, sep, n as nat),
{
    let mut out: Vec<&'a [char]> = Vec::new();
    let mut from: usize = 0;
    let mut left: usize = n;
    proof {
        assert(views(out@) + split_limit_from(s@, sep, n as nat, 0) =~= split_limit_from(
            s@,
            sep,
            n as nat,
            0,
        ));
    }
    while left > 0
        invariant
            from <= s@.len(),
            views(out@) + split_limit_from(s@, sep, left as nat, from as int) == split_limit_from(
                s@,
                sep,
                n as nat,
                0,
            ),
        decreases left,
    {
        let i = find_char(s, sep, from);
        let ghost before = out@;
        if left > 1 && i < s.len() {
            out.push(slice_subrange(s, from, i));
            proof {
                lemma_views_push(before, out@.last());
                assert(views(out@) + split_limit_from(s@, sep, (left - 1) as nat, i + 1)
                    =~= views(before) + split_limit_from(s@, sep, left as nat, from as int));
            }
            from = i + 1;
            left = left - 1;
        } else {
            out.push(slice_subrange(s, from, s.len()));
            proof {
                lemma_views_push(before, out@.last());
                assert(views(out@) =~= views(before) + split_limit_from(
                    s@,
                    sep,
                    left as nat,
                    from as int,
                ));
            }
            return out;
        }
    }
    proof {
        assert(views(out@) + Seq::<Seq<char>>::empty() =~= views(out@));
    }
    out
}

/// `line` without one carriage return at its end.
pub open spec fn without_cr(line: Seq<char>) -> Seq<char> {
    if line.len() > 0 && line.last() == '\r' {
        line.drop_last()
    } else {
        line
    }
}

/// The lines of `s` from position `from` on.
pub open spec fn lines_from(s: Seq<char>, from: int) -> Seq<Seq<char>>
    decreases s.len() - from,
{
    let i = position_of(s, '\n', from);
    if from < 0 || from >= s.len() {
        Seq::empty()
    } else if from <= i < s.len() {
        seq![without_cr(s.subrange(from, i))] + lines_from(s, i + 1)
    } else {
        seq![s.subrange(from, s.len() as int)]
    }
}

/// The lines of `s`. A line ends at a line feed, or at a carriage return
/// directly followed by a line feed; neither belongs to the line. The last
/// line needs no line ending, and the empty text has no line.
pub open spec fn lines_of(s: Seq<char>) -> Seq<Seq<char>> {
    lines_from(s, 0)
}

/// Cuts `s` into its lines.
pub fn lines<'a>(s: &'a [char]) -> (out: Vec<&'a [char]>)
    ensures
        views(out@) == lines_of(s@),
{
    let mut out: Vec<&'a [char]> = Vec::new();
    let mut from: usize = 0;
    proof {
        assert(views(out@) + lines_from(s@, 0) =~= lines_from(s@, 0));
    }
    while from < s.len()
        invariant
            from <= s@.len(),
            views(out@) + lines_from(s@, from as int) == lines_from(s@, 0),
        decreases s@.len() - from,
    {
        let i = find_char(s, '\n', from);
        let ghost before = out@;
        if i < s.len() {
            let end: usize = if i > from && s[i - 1] == '\r' {
                i - 1
            } else {
                i
            };
            out.push(slice_subrange(s, from, end));
            proof {
                lemma_views_push(before, out@.last());
                let line = s@.subrange(from as int, i as int);
                assert(without_cr(line) =~= s@.subrange(from as int, end as int));
                assert(views(out@) + lines_from(s@, i + 1) =~= views(before) + lines_from(
                    s@,
                    from as int,
                ));
            }
            from = i + 1;
        } else {
            out.push(slice_subrange(s, from, s.len()));
            proof {
                lemma_views_push(before, out@.last());
                assert(views(out@) =~= views(before) + lines_from(s@, from as int));
                assert(lines_from(s@, s@.len() as int) =~= Seq::<Seq<char>>::empty());
            }
            from = s.len();
        }
    }
    proof {
        assert(views(out@) + Seq::<Seq<char>>::empty() =~= views(out@));
    }
    out
}

/// The words of `s` from position `from` on.
pub open spec fn words_from(s: Seq<char>, from: int) -> Seq<Seq<char>>
    decreases s.len() - from,
{
    let a = skip_class(s, CharClass::Whitespace, from, s.len() as int);
    let b = skip_class(s, CharClass::NonWhitespace, a, s.len() as int);
    if 0 <= from <= a < b <= s.len() {
        seq![s.subrange(a, b)] + words_from(s, b)
    } else {
        Seq::empty()
    }
}

/// The words of `s`: its longest runs of characters that are not white space.
pub open spec fn words_of(s: Seq<char>) -> Seq<Seq<char>> {
    words_from(s, 0)
}

/// Cuts `s` into its words.
pub fn words<'a>(s: &'a [char]) -> (out: Vec<&'a [char]>)
    ensures
        views(out@) == words_of(s@),
{
    let mut out: Vec<&'a [char]> = Vec::new();
    let mut from: usize = 0;
    proof {
        assert(views(out@) + words_from(s@, 0) =~= words_from(s@, 0));
    }
    loop
        invariant
            from <= s@.len(),
            views(out@) + words_from(s@, from as int) == words_from(s@, 0),
        decreases s@.len() - from,
    {
        let a = skip_while(s, CharClass::Whitespace, from, s.len());
        let b = skip_while(s, CharClass::NonWhitespace, a, s.len());
        if a < b {
            let ghost before = out@;
            out.push(slice_subrange(s, a, b));
            proof {
                lemma_views_push(before, out@.last());
                assert(views(out@) + words_from(s@, b as int) =~= views(before) + words_from(
                    s@,
                    from as int,
                ));
            }
            from = b;
        } else {
            proof {
                assert(views(out@) + Seq::<Seq<char>>::empty() =~= views(out@));
            }
            return out;
        }
    }
}

/// The pieces written one after another with `sep` between each two.
pub open spec fn joined(ps: Seq<Seq<char>>, sep: Seq<char>) -> Seq<char>
    decreases ps.len(),
{
    if ps.len() == 0 {
        Seq::empty()
    } else if ps.len() == 1 {
        ps[0]
    } else {
        joined(ps.drop_last(), sep) + sep + ps.last()
    }
}

/// Puts the characters of `s` at the end of `out`.
pub fn append_chars(out: &mut Vec<char>, s: &[char])
    ensures
        final(out)@ == old(out)@ + s@,
{
    let mut i: usize = 0;
    while i < s.len()
        invariant
            i <= s@.len(),
            out@ =~= old(out)@ + s@.take(i as int),
        decreases s@.len() - i,
    {
        out.push(s[i]);
        i += 1;
    }
}

/// Writes the pieces one after another with `sep` between each two.
pub fn join(ps: &Vec<&[char]>, sep: &[char]) -> (out: Vec<char>)
    ensures
        out@ == joined(views(ps@), sep@),
{
    let mut out: Vec<char> = Vec::new();
    let mut i: usize = 0;
    while i < ps.len()
        invariant
            i <= ps@.len(),
            out@ == joined(views(ps@).take(i as int), sep@),
        decreases ps@.len() - i,
    {
        proof {
            assert(views(ps@).take(i + 1).drop_last() =~= views(ps@).take(i as int));
        }
        if i > 0 {
            append_chars(&mut out, sep);
        }
        append_chars(&mut out, ps[i]);
        proof {
            if i == 0 {
                assert(out@ =~= views(ps@).take(1)[0]);
            }
        }
        i += 1;
    }
    proof {
        assert(views(ps@).take(ps@.len() as int) =~= views(ps@));
    }
    out
}

/// Whether `c` is one of the ten decimal digits.
pub open spec fn is_digit(c: char) -> bool {
    0x30 <= c as u32 <= 0x39
}

/// The number that a decimal digit stands for.
pub open spec fn digit_value(c: char) -> nat {
    (c as u32 - 0x30) as nat
}

/// Whether `s` holds decimal digits only.
pub open spec fn all_digits(s: Seq<char>) -> bool {
    forall|i: int| 0 <= i < s.len() ==> is_digit(#[trigger] s[i])
}

/// The number that a run of decimal digits stands for.
pub open spec fn decimal_value(s: Seq<char>) -> nat
    decreases s.len(),
{
    if s.len() == 0 {
        0
    } else {
        decimal_value(s.drop_last()) * 10 + digit_value(s.last())
    }
}

/// `s` without one plus sign at its start.
pub open spec fn without_plus(s: Seq<char>) -> Seq<char> {
    if s.len() > 0 && s[0] == '+' {
        s.skip(1)
    } else {
        s
    }
}

/// The number that `s` stands for: an optional plus sign and then one or
/// more decimal digits whose value fits in 32 bits.
pub open spec fn parsed_u32(s: Seq<char>) -> Option<u32> {
    let d = without_plus(s);
    if d.len() > 0 && all_digits(d) && decimal_value(d) <= u32::MAX {
        Some(decimal_value(d) as u32)
    } else {
        None
    }
}

/// A run of digits stands for at least as much as each of its prefixes.
pub proof fn lemma_decimal_value_grows(s: Seq<char>, i: int)
    requires
        0 <= i <= s.len(),
    ensures
        decimal_value(s.take(i)) <= decimal_value(s),
    decreases s.len() - i,
{
    if i < s.len() {
        assert(s.take(i + 1).drop_last() =~= s.take(i));
        lemma_decimal_value_grows(s, i + 1);
    } else {
        assert(s.take(i) =~= s);
    }
}

/// Reads a number of 32 bits: an optional plus sign and decimal digits.
pub fn parse_u32(s: &[char]) -> (r: Option<u32>)
    ensures
        r == parsed_u32(s@),
{
    let start: usize = if s.len() > 0 && s[0] == '+' {
        1
    } else {
        0
    };
    let d = slice_subrange(s, start, s.len());
    assert(d@ =~= without_plus(s@));
    if d.len() == 0 {
        return None;
    }
    let mut acc: u64 = 0;
    let mut i: usize = 0;
    while i < d.len()
        invariant
            i <= d@.len(),
            d@.len() > 0,
            d@ == without_plus(s@),
            all_digits(d@.take(i as int)),
            acc == decimal_value(d@.take(i as int)),
            acc <= u32::MAX,
        decreases d@.len() - i,
    {
        let n: u32 = d[i] as u32;
        if n < 0x30 || n > 0x39 {
            assert(!is_digit(d@[i as int]));
            return None;
        }
        proof {
            assert(d@.take(i + 1).drop_last() =~= d@.take(i as int));
            assert(d@.take(i + 1).last() == d@[i as int]);
            assert forall|k: int| 0 <= k < i + 1 implies is_digit(#[trigger] d@.take(i + 1)[k]) by {
                if k < i {
                    assert(d@.take(i as int)[k] == d@[k]);
                }
            }
        }
        let next: u64 = acc * 10 + (n - 0x30) as u64;
        if next > 0xFFFF_FFFF {
            proof {
                lemma_decimal_value_grows(d@, i + 1);
            }
            return None;
        }
        acc = next;
        i += 1;
    }
    proof {
        assert(d@.take(d@.len() as int) =~= d@);
    }
    Some(acc as u32)
}

/// Whether two slices hold the same characters.
pub fn same_chars(a: &[char], b: &[char]) -> (r: bool)
    ensures
        r == (a@ == b@),
{
    if a.len() != b.len() {
        return false;
    }
    let r = matches_at(a, b, 0);
    proof {
        assert(a@.subrange(0, 0int + b@.len()) =~= a@);
    }
    r
}

/// Whether one of the slices in `list` holds the characters of `x`.
pub fn list_contains(list: &Vec<&[char]>, x: &[char]) -> (r: bool)
    ensures
        r == views(list@).contains(x@),
{
    let mut i: usize = 0;
    while i < list.len()
        invariant
            i <= list@.len(),
            forall|k: int| 0 <= k < i ==> views(list@)[k] != x@,
        decreases list@.len() - i,
    {
        if same_chars(list[i], x) {
            assert(views(list@)[i as int] == x@);
            return true;
        }
        i += 1;
    }
    false
}

/// Whether `c` occurs in `s`.
pub fn str_contains_char(s: &str, c: char) -> (r: bool)
    ensures
        r == s@.contains(c),
{
    let text = chars_of(s);
    let at = find_char(text.as_slice(), c, 0);
    proof {
        lemma_position_of(text@, c, 0);
    }
    at < text.len()
}

/// Whether `s` holds nothing but white space.
pub fn str_is_blank(s: &str) -> (r: bool)
    ensures
        r == is_blank(s@),
{
    let text = chars_of(s);
    trim(text.as_slice()).len() == 0
}

/// Writes the words one after another with one space between each two.
pub fn join_words(words: &Vec<String>) -> (out: String)
    ensures
        out@ == joined(words.deep_view(), seq![' ']),
{
    let mut out = String::new();
    let ghost all = words.deep_view();
    let mut i: usize = 0;
    while i < words.len()
        invariant
            i <= words@.len(),
            all == words.deep_view(),
            out@ == joined(all.take(i as int), seq![' ']),
        decreases words@.len() - i,
    {
        proof {
            assert(all.take(i + 1).drop_last() =~= all.take(i as int));
            assert(all.take(i + 1).last() == words@[i as int]@);
        }
        if i > 0 {
            out.push(' ');
        }
        out.append(words[i].as_str());
        proof {
            if i == 0 {
                assert(out@ =~= all.take(1)[0]);
            } else {
                assert(out@ =~= joined(all.take(i as int), seq![' ']) + seq![' '] + all.take(
                    i + 1,
                ).last());
            }
        }
        i += 1;
    }
    proof {
        assert(all.take(words@.len() as int) =~= all);
    }
    out
}

} // verus!
