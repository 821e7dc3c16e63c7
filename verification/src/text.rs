use vstd::prelude::*;

verus! {

/// Whether `c` has the Unicode `White_Space` property, which is what
/// `char::is_whitespace` (and so `str::trim`) answers: U+0009 to U+000D,
/// U+0020, U+0085, U+00A0, U+1680, U+2000 to U+200A, U+2028, U+2029, U+202F,
/// U+205F and U+3000.
pub open spec fn is_white_space(c: char) -> bool {
    let u = c as u32;
    ||| 0x09 <= u <= 0x0D
    ||| u == 0x20
    ||| u == 0x85
    ||| u == 0xA0
    ||| u == 0x1680
    ||| 0x2000 <= u <= 0x200A
    ||| u == 0x2028
    ||| u == 0x2029
    ||| u == 0x202F
    ||| u == 0x205F
    ||| u == 0x3000
}

/// Whether `c` is a whitespace character, as `char::is_whitespace` decides.
fn char_is_whitespace(c: char) -> (b: bool)
    ensures
        b == is_white_space(c),
{
    let u = c as u32;
    (0x09 <= u && u <= 0x0D) || u == 0x20 || u == 0x85 || u == 0xA0 || u == 0x1680 || (0x2000
        <= u && u <= 0x200A) || u == 0x2028 || u == 0x2029 || u == 0x202F || u == 0x205F || u
        == 0x3000
}

/// Among ASCII characters only the space and the controls tab, line feed,
/// vertical tab, form feed and carriage return are whitespace: no letter,
/// digit or punctuation mark is.
pub proof fn lemma_ascii_whitespace(c: char)
    requires
        (c as u32) < 0x80,
    ensures
        is_white_space(c) <==> (c == ' ' || c == '\t' || c == '\n' || c == '\x0B' || c == '\x0C'
            || c == '\r'),
        ('0' <= c <= '9' || 'a' <= c <= 'z' || 'A' <= c <= 'Z') ==> !is_white_space(c),
        ('!' <= c <= '/' || ':' <= c <= '@' || '[' <= c <= '`' || '{' <= c <= '~') ==> !is_white_space(c),
{
}

/// `s` without its leading whitespace.
pub open spec fn trim_front(s: Seq<char>) -> Seq<char>
    decreases s.len(),
{
    if s.len() > 0 && is_white_space(s[0]) {
        trim_front(s.drop_first())
    } else {
        s
    }
}

/// `s` without its trailing whitespace.
pub open spec fn trim_back(s: Seq<char>) -> Seq<char>
    decreases s.len(),
{
    if s.len() > 0 && is_white_space(s.last()) {
        trim_back(s.drop_last())
    } else {
        s
    }
}

/// `s` without leading and trailing whitespace, as `str::trim` gives it.
pub open spec fn trimmed(s: Seq<char>) -> Seq<char> {
    trim_back(trim_front(s))
}

proof fn lemma_trim_front_step(s: Seq<char>, i: int)
    requires
        0 <= i < s.len(),
        is_white_space(s[i]),
    ensures
        trim_front(s.subrange(i, s.len() as int)) == trim_front(s.subrange(i + 1, s.len() as int)),
{
    let t = s.subrange(i, s.len() as int);
    assert(t.drop_first() =~= s.subrange(i + 1, s.len() as int));
}

proof fn lemma_trim_back_step(s: Seq<char>, j: int)
    requires
        0 < j <= s.len(),
        is_white_space(s[j - 1]),
    ensures
        trim_back(s.subrange(0, j)) == trim_back(s.subrange(0, j - 1)),
{
    let t = s.subrange(0, j);
    assert(t.drop_last() =~= s.subrange(0, j - 1));
}


proof fn lemma_trim_front_suffix(s: Seq<char>)
    ensures
        trim_front(s).len() <= s.len(),
        trim_front(s) =~= s.subrange(s.len() - trim_front(s).len(), s.len() as int),
        trim_front(s).len() > 0 ==> !is_white_space(trim_front(s)[0]),
    decreases s.len(),
{
    if s.len() > 0 && is_white_space(s[0]) {
        lemma_trim_front_suffix(s.drop_first());
    }
}

proof fn lemma_trim_back_prefix(s: Seq<char>)
    ensures
        trim_back(s).len() <= s.len(),
        trim_back(s) =~= s.subrange(0, trim_back(s).len() as int),
        trim_back(s).len() > 0 ==> !is_white_space(trim_back(s).last()),
    decreases s.len(),
{
    if s.len() > 0 && is_white_space(s.last()) {
        lemma_trim_back_prefix(s.drop_last());
    }
}

/// A trimmed text neither starts nor ends with whitespace.
pub proof fn lemma_trimmed_has_no_outer_whitespace(s: Seq<char>)
    ensures
        trimmed(s).len() > 0 ==> !is_white_space(trimmed(s)[0]),
        trimmed(s).len() > 0 ==> !is_white_space(trimmed(s).last()),
{
    let f = trim_front(s);
    lemma_trim_front_suffix(s);
    lemma_trim_back_prefix(f);
    if trimmed(s).len() > 0 {
        assert(trimmed(s)[0] == f[0]);
    }
}

/// Trimming is a contiguous piece of the text: all that goes is at the ends.
pub proof fn lemma_trimmed_is_slice(s: Seq<char>) -> (r: (int, int))
    ensures
        0 <= r.0 <= r.1 <= s.len(),
        trimmed(s) == s.subrange(r.0, r.1),
{
    let f = trim_front(s);
    lemma_trim_front_suffix(s);
    lemma_trim_back_prefix(f);
    let i = s.len() - f.len();
    let j = i + trimmed(s).len();
    assert(trimmed(s) =~= s.subrange(i, j));
    (i, j)
}

/// Trimming keeps a text whose first and last characters are not
/// whitespace as it is: nothing but whitespace is ever cut.
pub proof fn lemma_trim_keeps_non_whitespace_ends(s: Seq<char>)
    requires
        s.len() > 0,
        !is_white_space(s[0]),
        !is_white_space(s.last()),
    ensures
        trimmed(s) == s,
{
    assert(trim_front(s) == s);
}

/// Trimming twice is trimming once.
pub proof fn lemma_trimmed_idempotent(s: Seq<char>)
    ensures
        trimmed(trimmed(s)) == trimmed(s),
{
    let t = trimmed(s);
    lemma_trimmed_has_no_outer_whitespace(s);
    assert(trim_front(t) == t);
    assert(trim_back(t) == t);
}

/// The text of `s` with leading and trailing whitespace removed.
pub fn trim(s: &str) -> (t: String)
    ensures
        t@ == trimmed(s@),
{
    let n = s.unicode_len();
    let mut start: usize = 0;
    assert(s@.subrange(0, n as int) =~= s@);
    while start < n
        invariant
            n == s@.len(),
            start <= n,
            trim_front(s@) == trim_front(s@.subrange(start as int, n as int)),
        ensures
            start <= n,
            trim_front(s@) == trim_front(s@.subrange(start as int, n as int)),
            start < n ==> !is_white_space(s@[start as int]),
        decreases n - start,
    {
        let c = s.get_char(start);
        if !char_is_whitespace(c) {
            break;
        }
        proof {
            lemma_trim_front_step(s@, start as int);
        }
        start = start + 1;
    }
    let ghost front = s@.subrange(start as int, n as int);
    assert(start < n ==> front[0] == s@[start as int]);
    assert(trim_front(s@) == front);
    let mut end: usize = n;
    assert(front.subrange(0, (n - start) as int) =~= front);
    while end > start
        invariant
            n == s@.len(),
            start <= end <= n,
            front == s@.subrange(start as int, n as int),
            trim_back(front) == trim_back(front.subrange(0, end - start)),
        ensures
            start <= end <= n,
            trim_back(front) == trim_back(front.subrange(0, end - start)),
            end > start ==> !is_white_space(s@[end - 1]),
        decreases end - start,
    {
        let c = s.get_char(end - 1);
        if !char_is_whitespace(c) {
            break;
        }
        proof {
            lemma_trim_back_step(front, (end - start) as int);
        }
        end = end - 1;
    }
    let ghost kept = front.subrange(0, end - start);
    assert(kept =~= s@.subrange(start as int, end as int));
    assert(end > start ==> kept.last() == s@[end - 1]);
    assert(trim_back(front) == kept);
    String::from_str(s.substring_char(start, end))
}

/// `prefix` followed by `detail`.
pub fn prefixed(prefix: &str, detail: &str) -> (m: String)
    ensures
        m@ == prefix@ + detail@,
{
    let mut m = String::from_str(prefix);
    m.append(detail);
    m
}

/// Whether two texts are the same character for character.
pub fn same_text(a: &str, b: &str) -> (eq: bool)
    ensures
        eq == (a@ == b@),
{
    let n = a.unicode_len();
    if n != b.unicode_len() {
        return false;
    }
    let mut i: usize = 0;
    while i < n
        invariant
            n == a@.len(),
            n == b@.len(),
            i <= n,
            forall|k: int| 0 <= k < i ==> a@[k] == b@[k],
        decreases n - i,
    {
        if a.get_char(i) != b.get_char(i) {
            return false;
        }
        i = i + 1;
    }
    assert(a@ =~= b@);
    true
}

} // verus!
