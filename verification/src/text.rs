//! Character-level text helpers used by the banks and the validator.

use vstd::prelude::*;

verus! {

/// `pat` occurs in `s` starting at position `i`.
pub open spec fn occurs_at(s: Seq<char>, pat: Seq<char>, i: int) -> bool {
    &&& 0 <= i
    &&& i + pat.len() <= s.len()
    &&& forall|j: int| 0 <= j < pat.len() ==> s[i + j] == #[trigger] pat[j]
}

/// `pat` occurs somewhere in `s` (the empty pattern occurs in every text).
pub open spec fn contains_seq(s: Seq<char>, pat: Seq<char>) -> bool {
    exists|i: int| occurs_at(s, pat, i)
}

/// Membership in the Unicode `White_Space` property, which is what
/// `char::is_whitespace` and `str::trim` go by.
pub open spec fn is_white_space(c: char) -> bool {
    let u = c as u32;
    ||| 0x9 <= u <= 0xd
    ||| u == 0x20
    ||| u == 0x85
    ||| u == 0xa0
    ||| u == 0x1680
    ||| 0x2000 <= u <= 0x200a
    ||| u == 0x2028
    ||| u == 0x2029
    ||| u == 0x202f
    ||| u == 0x205f
    ||| u == 0x3000
}

/// Trimming whitespace from both ends of `s` leaves nothing: every
/// character of `s` is whitespace.
pub open spec fn trims_to_empty(s: Seq<char>) -> bool {
    forall|i: int| 0 <= i < s.len() ==> is_white_space(#[trigger] s[i])
}

/// `s` with every space character (`' '`) removed.
pub open spec fn without_spaces(s: Seq<char>) -> Seq<char>
    decreases s.len(),
{
    if s.len() == 0 {
        Seq::empty()
    } else if s.last() == ' ' {
        without_spaces(s.drop_last())
    } else {
        without_spaces(s.drop_last()).push(s.last())
    }
}

/// The first `n` characters of `s`, or all of `s` where it is shorter.
pub open spec fn prefix_chars(s: Seq<char>, n: nat) -> Seq<char> {
    if s.len() <= n {
        s
    } else {
        s.take(n as int)
    }
}

/// A text trims to nothing exactly when it holds no character other than
/// whitespace; spaces, tabs and line breaks are whitespace, letters and
/// digits are not.
pub proof fn lemma_blank_texts(s: Seq<char>, i: int)
    ensures
        trims_to_empty(Seq::empty()),
        0 <= i < s.len() && !is_white_space(s[i]) ==> !trims_to_empty(s),
        is_white_space(' ') && is_white_space('\t') && is_white_space('\n') && is_white_space('\r'),
        !is_white_space('a') && !is_white_space('0') && !is_white_space('@'),
{
}

/// A pattern occurs in any text built around it, and never in a text
/// shorter than itself.
pub proof fn lemma_contains(before: Seq<char>, pat: Seq<char>, after: Seq<char>, s: Seq<char>)
    ensures
        contains_seq(before + pat + after, pat),
        pat.len() > s.len() ==> !contains_seq(s, pat),
{
    let t = before + pat + after;
    assert forall|j: int| 0 <= j < pat.len() implies t[before.len() + j] == #[trigger] pat[j] by {}
    assert(occurs_at(t, pat, before.len() as int));
}

/// The prefix of `s` of `n` characters is its first `n` characters, or all
/// of `s` where it is shorter.
pub proof fn lemma_prefix_chars(s: Seq<char>, n: nat)
    ensures
        prefix_chars(s, n).len() == (if s.len() < n { s.len() } else { n }),
        forall|i: int| 0 <= i < prefix_chars(s, n).len() ==> #[trigger] prefix_chars(s, n)[i] == s[i],
{
}

/// Removing spaces leaves no space behind, never lengthens the text, and
/// leaves a text without spaces as it was.
pub proof fn lemma_without_spaces(s: Seq<char>)
    ensures
        forall|i: int| 0 <= i < without_spaces(s).len() ==> #[trigger] without_spaces(s)[i] != ' ',
        without_spaces(s).len() <= s.len(),
        (forall|i: int| 0 <= i < s.len() ==> #[trigger] s[i] != ' ') ==> without_spaces(s) == s,
    decreases s.len(),
{
    if s.len() > 0 {
        lemma_without_spaces(s.drop_last());
        let r = without_spaces(s.drop_last());
        if s.last() != ' ' {
            assert forall|i: int| 0 <= i < r.push(s.last()).len() implies #[trigger] r.push(s.last())[i] != ' ' by {
                if i < r.len() {
                    assert(r.push(s.last())[i] == r[i]);
                }
            }
        }
        if forall|i: int| 0 <= i < s.len() ==> #[trigger] s[i] != ' ' {
            assert forall|i: int| 0 <= i < s.drop_last().len() implies #[trigger] s.drop_last()[i] != ' ' by {
                assert(s.drop_last()[i] == s[i]);
            }
            assert(s.last() == s[s.len() - 1]);
            assert(s.drop_last().push(s.last()) =~= s);
        }
    }
}

/// The characters of `s`, one per element.
pub fn chars_of(s: &str) -> (v: Vec<char>)
    ensures
        v@ == s@,
{
    let n = s.unicode_len();
    let mut v: Vec<char> = Vec::new();
    let mut i: usize = 0;
    while i < n
        invariant
            n == s@.len(),
            i <= n,
            v@ == s@.take(i as int),
        decreases n - i,
    {
        let c = s.get_char(i);
        v.push(c);
        i = i + 1;
        assert(v@ =~= s@.take(i as int));
    }
    assert(v@ =~= s@);
    v
}

/// Whether `pat` occurs in `s`, as `str::contains` answers it.
pub fn contains_text(s: &str, pat: &str) -> (b: bool)
    ensures
        b == contains_seq(s@, pat@),
{
    let sv = chars_of(s);
    let pv = chars_of(pat);
    let n = sv.len();
    let m = pv.len();
    if m > n {
        assert forall|i: int| !occurs_at(s@, pat@, i) by {}
        return false;
    }
    let mut i: usize = 0;
    while i <= n - m
        invariant
            n == s@.len(),
            m == pat@.len(),
            m <= n,
            sv@ == s@,
            pv@ == pat@,
            i <= n - m + 1,
            forall|k: int| 0 <= k < i ==> !occurs_at(s@, pat@, k),
        decreases n - m + 1 - i,
    {
        let mut j: usize = 0;
        let mut matched = true;
        while j < m
            invariant
                n == s@.len(),
                m == pat@.len(),
                sv@ == s@,
                pv@ == pat@,
                i + m <= n,
                j <= m,
                matched ==> forall|jj: int| 0 <= jj < j ==> s@[i + jj] == #[trigger] pat@[jj],
                !matched ==> !occurs_at(s@, pat@, i as int),
            decreases m - j,
        {
            if sv[i + j] != pv[j] {
                matched = false;
                assert(s@[i + j] != pat@[j as int]);
            }
            j = j + 1;
        }
        if matched {
            assert(occurs_at(s@, pat@, i as int));
            return true;
        }
        i = i + 1;
    }
    assert forall|k: int| !occurs_at(s@, pat@, k) by {
        if 0 <= k && k + m <= n {
            assert(k < i);
        }
    }
    false
}

/// Whether `c` is whitespace, as `char::is_whitespace` answers it.
pub fn is_white_space_char(c: char) -> (b: bool)
    ensures
        b == is_white_space(c),
{
    let u = c as u32;
    (0x9 <= u && u <= 0xd) || u == 0x20 || u == 0x85 || u == 0xa0 || u == 0x1680 || (0x2000 <= u
        && u <= 0x200a) || u == 0x2028 || u == 0x2029 || u == 0x202f || u == 0x205f || u == 0x3000
}

/// Whether `s.trim().is_empty()` holds.
pub fn is_blank(s: &str) -> (b: bool)
    ensures
        b == trims_to_empty(s@),
{
    let v = chars_of(s);
    let n = v.len();
    let mut i: usize = 0;
    while i < n
        invariant
            n == s@.len(),
            v@ == s@,
            i <= n,
            forall|k: int| 0 <= k < i ==> is_white_space(#[trigger] s@[k]),
        decreases n - i,
    {
        if !is_white_space_char(v[i]) {
            return false;
        }
        i = i + 1;
    }
    true
}

/// Appends `s` without its space characters to `out`, as `s.replace(' ', "")` would give them.
pub fn push_without_spaces(out: &mut String, s: &str)
    ensures
        final(out)@ == old(out)@ + without_spaces(s@),
{
    let n = s.unicode_len();
    let mut i: usize = 0;
    while i < n
        invariant
            n == s@.len(),
            i <= n,
            out@ == old(out)@ + without_spaces(s@.take(i as int)),
        decreases n - i,
    {
        let c = s.get_char(i);
        assert(s@.take(i + 1).drop_last() =~= s@.take(i as int));
        if c != ' ' {
            out.append(s.substring_char(i, i + 1));
            assert(s@.subrange(i as int, i + 1) =~= seq![c]);
        }
        i = i + 1;
        assert(out@ =~= old(out)@ + without_spaces(s@.take(i as int)));
    }
    assert(s@.take(n as int) =~= s@);
}

/// Appends the first `n` characters of `s` (all of it where it is shorter) to `out`.
pub fn push_prefix(out: &mut String, s: &str, n: usize)
    ensures
        final(out)@ == old(out)@ + prefix_chars(s@, n as nat),
{
    let len = s.unicode_len();
    let k = if len <= n { len } else { n };
    out.append(s.substring_char(0, k));
    assert(s@.subrange(0, k as int) =~= prefix_chars(s@, n as nat));
}

} // verus!
