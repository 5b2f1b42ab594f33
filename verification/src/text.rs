use vstd::prelude::*;

verus! {

broadcast use vstd::string::group_string_axioms;

/// Appends one character to a string (std's `String::push`): the string
/// afterwards is the string before with the character added at its end.
#[verifier::external_body]
pub(crate) fn push_char(s: &mut String, c: char)
    ensures
        final(s)@ == old(s)@.push(c),
{
    s.push(c);
}

/// The characters of a string slice, in order.
pub fn chars_of(s: &str) -> (out: Vec<char>)
    ensures
        out@ == s@,
{
    let mut out: Vec<char> = Vec::new();
    for c in it: s.chars()
        invariant
            out@ == it.seq().take(it.index() as int),
            it.seq() == s@,
    {
        out.push(c);
    }
    out
}

/// Whether a character has the Unicode `White_Space` property, which is
/// what std's `char::is_whitespace` tests.
pub open spec fn is_space(c: char) -> bool {
    let u = c as u32;
    ||| 0x09 <= u <= 0x0d
    ||| u == 0x20
    ||| u == 0x85
    ||| u == 0xa0
    ||| u == 0x1680
    ||| 0x2000 <= u <= 0x200a
    ||| u == 0x2028
    ||| u == 0x2029
    ||| u == 0x202f
    ||| u == 0x205f
    ||| u == 0x3000
}

/// Executable form of `is_space`.
pub fn is_space_char(c: char) -> (b: bool)
    ensures
        b == is_space(c),
{
    let u = c as u32;
    (0x09 <= u && u <= 0x0d) || u == 0x20 || u == 0x85 || u == 0xa0 || u == 0x1680
        || (0x2000 <= u && u <= 0x200a) || u == 0x2028 || u == 0x2029 || u == 0x202f
        || u == 0x205f || u == 0x3000
}

/// The decimal digit character for a value below ten.
pub open spec fn digit_char(d: int) -> char {
    (48 + d) as char
}

/// The decimal representation of a natural number, without leading zeros.
pub open spec fn nat_decimal(n: nat) -> Seq<char>
    decreases n,
{
    if n < 10 {
        seq![digit_char(n as int)]
    } else {
        nat_decimal(n / 10).push(digit_char((n % 10) as int))
    }
}

/// The decimal representation of an integer, as `Display` writes it:
/// a minus sign before the digits of a negative number.
pub open spec fn int_decimal(n: int) -> Seq<char> {
    if n < 0 {
        seq!['-'] + nat_decimal((-n) as nat)
    } else {
        nat_decimal(n as nat)
    }
}

/// Appends the decimal representation of `m` to `s`.
pub fn push_decimal(s: &mut String, m: u64)
    ensures
        final(s)@ == old(s)@ + nat_decimal(m as nat),
    decreases m,
{
    if m >= 10 {
        push_decimal(s, m / 10);
    }
    let d: u8 = (m % 10) as u8;
    let c: char = (48u8 + d) as char;
    push_char(s, c);
    assert(s@ == old(s)@ + nat_decimal(m as nat));
}

/// Appends the decimal representation of `n` to `s`.
pub fn push_i64_decimal(s: &mut String, n: i64)
    ensures
        final(s)@ == old(s)@ + int_decimal(n as int),
{
    if n < 0 {
        push_char(s, '-');
        let m: u64 = ((-(n + 1)) as u64) + 1;
        push_decimal(s, m);
    } else {
        push_decimal(s, n as u64);
    }
}

/// `pat` occurs in `s` starting at index `i`.
pub open spec fn matches_at(s: Seq<char>, pat: Seq<char>, i: int) -> bool {
    &&& 0 <= i
    &&& i + pat.len() <= s.len()
    &&& forall|j: int| 0 <= j < pat.len() ==> #[trigger] s[i + j] == pat[j]
}

/// The first index at or after `i` where `pat` occurs in `s`.
pub open spec fn find_from(s: Seq<char>, pat: Seq<char>, i: int) -> Option<int>
    decreases s.len() + 1 - i,
{
    if i < 0 || i > s.len() {
        None
    } else if matches_at(s, pat, i) {
        Some(i)
    } else {
        find_from(s, pat, i + 1)
    }
}

/// The first index at or after `i` where `pat` occurs, or the end of `s`
/// when it does not occur there.
pub open spec fn find_or_end(s: Seq<char>, pat: Seq<char>, i: int) -> int {
    match find_from(s, pat, i) {
        Some(k) => k,
        None => s.len() as int,
    }
}

/// Executable form of `matches_at`.
pub fn matches_at_exec(s: &Vec<char>, pat: &Vec<char>, i: usize) -> (b: bool)
    ensures
        b == matches_at(s@, pat@, i as int),
{
    if i > s.len() || pat.len() > s.len() - i {
        return false;
    }
    let mut j: usize = 0;
    while j < pat.len()
        invariant
            i + pat@.len() <= s@.len(),
            i + pat.len() <= s.len(),
            j <= pat@.len(),
            forall|k: int| 0 <= k < j ==> #[trigger] s@[i + k] == pat@[k],
        decreases pat@.len() - j,
    {
        if s[i + j] != pat[j] {
            assert(s@[i + j as int] != pat@[j as int]);
            return false;
        }
        j += 1;
    }
    true
}

/// Executable form of `find_from`.
pub fn find_from_exec(s: &Vec<char>, pat: &Vec<char>, from: usize) -> (r: Option<usize>)
    requires
        from <= s@.len(),
    ensures
        match r {
            Some(k) => find_from(s@, pat@, from as int) == Some(k as int),
            None => find_from(s@, pat@, from as int) is None,
        },
{
    let mut i: usize = from;
    while i <= s.len()
        invariant
            from <= i <= s@.len() + 1,
            find_from(s@, pat@, from as int) == find_from(s@, pat@, i as int),
        decreases s@.len() + 1 - i,
    {
        if matches_at_exec(s, pat, i) {
            return Some(i);
        }
        if i == s.len() {
            assert(find_from(s@, pat@, i as int + 1) is None);
            return None;
        }
        i += 1;
    }
    None
}

/// The first index at or after `i` that holds no white space, or the end.
pub open spec fn skip_spaces(s: Seq<char>, i: int) -> int
    decreases s.len() - i,
{
    if 0 <= i < s.len() && is_space(s[i]) {
        skip_spaces(s, i + 1)
    } else {
        i
    }
}

/// The first index at or after `i` that holds white space, or the end.
pub open spec fn skip_word(s: Seq<char>, i: int) -> int
    decreases s.len() - i,
{
    if 0 <= i < s.len() && !is_space(s[i]) {
        skip_word(s, i + 1)
    } else {
        i
    }
}

/// The second of the white-space separated words of `s`, if it has two.
pub open spec fn second_word(s: Seq<char>) -> Option<Seq<char>> {
    let start = skip_spaces(s, skip_word(s, skip_spaces(s, 0)));
    if start < s.len() {
        Some(s.subrange(start, skip_word(s, start)))
    } else {
        None
    }
}

fn skip_spaces_exec(s: &Vec<char>, i: usize) -> (r: usize)
    requires
        i <= s@.len(),
    ensures
        r == skip_spaces(s@, i as int),
        i <= r <= s@.len(),
        r < s@.len() ==> !is_space(s@[r as int]),
{
    let mut k = i;
    while k < s.len() && is_space_char(s[k])
        invariant
            i <= k <= s@.len(),
            skip_spaces(s@, i as int) == skip_spaces(s@, k as int),
        decreases s@.len() - k,
    {
        k += 1;
    }
    k
}

fn skip_word_exec(s: &Vec<char>, i: usize) -> (r: usize)
    requires
        i <= s@.len(),
    ensures
        r == skip_word(s@, i as int),
        i <= r <= s@.len(),
        (i < s@.len() && !is_space(s@[i as int])) ==> i < r,
{
    let mut k = i;
    while k < s.len() && !is_space_char(s[k])
        invariant
            i <= k <= s@.len(),
            skip_word(s@, i as int) == skip_word(s@, k as int),
        decreases s@.len() - k,
    {
        k += 1;
    }
    k
}

/// The character bounds of the second white-space separated word of `s`.
pub fn second_word_bounds(s: &Vec<char>) -> (r: Option<(usize, usize)>)
    ensures
        match r {
            Some((a, b)) => a < b <= s@.len() && second_word(s@) == Some(s@.subrange(a as int, b as int)),
            None => second_word(s@) is None,
        },
{
    let a = skip_spaces_exec(s, 0);
    let b = skip_word_exec(s, a);
    let c = skip_spaces_exec(s, b);
    if c < s.len() {
        let d = skip_word_exec(s, c);
        Some((c, d))
    } else {
        None
    }
}

/// `find_from` gives the first occurrence at or after `i`.
pub proof fn lemma_find_first(s: Seq<char>, pat: Seq<char>, i: int, k: int)
    requires
        0 <= i <= k,
        matches_at(s, pat, k),
        forall|j: int| i <= j < k ==> !#[trigger] matches_at(s, pat, j),
    ensures
        find_from(s, pat, i) == Some(k),
    decreases k - i,
{
    if i < k {
        assert(!matches_at(s, pat, i));
        lemma_find_first(s, pat, i + 1, k);
    }
}

/// `find_from` finds nothing when nothing occurs at or after `i`.
pub proof fn lemma_find_none(s: Seq<char>, pat: Seq<char>, i: int)
    requires
        0 <= i,
        forall|j: int| i <= j <= s.len() ==> !#[trigger] matches_at(s, pat, j),
    ensures
        find_from(s, pat, i) is None,
    decreases s.len() + 1 - i,
{
    if i <= s.len() {
        assert(!matches_at(s, pat, i));
        lemma_find_none(s, pat, i + 1);
    }
}

/// `skip_word` stops at the first white space after a run of other
/// characters.
pub proof fn lemma_skip_word_run(s: Seq<char>, i: int, k: int)
    requires
        0 <= i <= k <= s.len(),
        forall|j: int| i <= j < k ==> !is_space(#[trigger] s[j]),
        k == s.len() || is_space(s[k]),
    ensures
        skip_word(s, i) == k,
    decreases k - i,
{
    if i < k {
        lemma_skip_word_run(s, i + 1, k);
    }
}

/// `skip_spaces` stops at the first character that is not white space
/// after a run of white space.
pub proof fn lemma_skip_spaces_run(s: Seq<char>, i: int, k: int)
    requires
        0 <= i <= k <= s.len(),
        forall|j: int| i <= j < k ==> is_space(#[trigger] s[j]),
        k == s.len() || !is_space(s[k]),
    ensures
        skip_spaces(s, i) == k,
    decreases k - i,
{
    if i < k {
        lemma_skip_spaces_run(s, i + 1, k);
    }
}

/// The words of a request line: the second word of `first`, a space,
/// `second` and a `rest` that begins with white space or is empty, is
/// `second`, whenever neither word is empty or holds white space.
pub proof fn lemma_second_word_of_line(first: Seq<char>, second: Seq<char>, rest: Seq<char>)
    requires
        first.len() > 0,
        second.len() > 0,
        forall|j: int| 0 <= j < first.len() ==> !is_space(#[trigger] first[j]),
        forall|j: int| 0 <= j < second.len() ==> !is_space(#[trigger] second[j]),
        rest.len() == 0 || is_space(rest[0]),
    ensures
        second_word(first + seq![' '] + second + rest) == Some(second),
{
    let s = first + seq![' '] + second + rest;
    let a = first.len() as int;
    let b = a + 1;
    let c = b + second.len();
    assert(s[0] == first[0]);
    lemma_skip_spaces_run(s, 0, 0);
    assert forall|j: int| 0 <= j < a implies !is_space(#[trigger] s[j]) by {
        assert(s[j] == first[j]);
    }
    assert(s[a] == ' ');
    lemma_skip_word_run(s, 0, a);
    assert(s[b] == second[0]);
    assert forall|j: int| a <= j < b implies is_space(#[trigger] s[j]) by {}
    lemma_skip_spaces_run(s, a, b);
    assert forall|j: int| b <= j < c implies !is_space(#[trigger] s[j]) by {
        assert(s[j] == second[j - b]);
    }
    if rest.len() > 0 {
        assert(s[c] == rest[0]);
    }
    lemma_skip_word_run(s, b, c);
    assert(s.subrange(b, c) =~= second);
}

/// A found occurrence lies within the searched text, at or after the start.
pub proof fn lemma_find_from_bounds(s: Seq<char>, pat: Seq<char>, i: int, k: int)
    requires
        find_from(s, pat, i) == Some(k),
    ensures
        i <= k,
        k + pat.len() <= s.len(),
    decreases s.len() + 1 - i,
{
    if 0 <= i <= s.len() && !crate::text::matches_at(s, pat, i) {
        lemma_find_from_bounds(s, pat, i + 1, k);
    }
}

/// What `find_from` finds is an occurrence.
pub proof fn lemma_find_is_match(s: Seq<char>, pat: Seq<char>, i: int, k: int)
    requires
        find_from(s, pat, i) == Some(k),
    ensures
        matches_at(s, pat, k),
    decreases s.len() + 1 - i,
{
    if 0 <= i <= s.len() && !matches_at(s, pat, i) {
        lemma_find_is_match(s, pat, i + 1, k);
    }
}

/// Which ASCII characters are white space: of the printable ones
/// (`!` to `~`) none is, the space is, and so are tab, line feed, vertical
/// tab, form feed and carriage return; no other control character below
/// tab is.
pub proof fn law_ascii_white_space(c: char)
    ensures
        0x21 <= (c as u32) <= 0x7e ==> !is_space(c),
        c == ' ' ==> is_space(c),
        c == '\t' || c == '\n' || c == '\r' ==> is_space(c),
        (c as u32) < 0x09 ==> !is_space(c),
        0x0e <= (c as u32) < 0x20 ==> !is_space(c),
        0x7f <= (c as u32) < 0x85 ==> !is_space(c),
{
}

} // verus!
