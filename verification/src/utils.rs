//! Small string helpers: whitespace trimming with default substitution,
//! single-character append, and character-wise string equality.

use vstd::prelude::*;

verus! {

/// A whitespace character: the Unicode `White_Space` code points, the set
/// conventional trimming removes.
pub open spec fn is_trim_space(c: char) -> bool {
    let u = c as u32;
    (0x09 <= u && u <= 0x0D) || u == 0x20 || u == 0x85 || u == 0xA0 || u == 0x1680 || (0x2000 <= u
        && u <= 0x200A) || u == 0x2028 || u == 0x2029 || u == 0x202F || u == 0x205F || u == 0x3000
}

/// Whether `c` is whitespace for the purposes of trimming.
pub fn is_trim_space_char(c: char) -> (r: bool)
    ensures
        r == is_trim_space(c),
{
    let u = c as u32;
    (0x09 <= u && u <= 0x0D) || u == 0x20 || u == 0x85 || u == 0xA0 || u == 0x1680 || (0x2000 <= u
        && u <= 0x200A) || u == 0x2028 || u == 0x2029 || u == 0x202F || u == 0x205F || u == 0x3000
}

/// The length of the whitespace prefix of `s`.
pub open spec fn leading_spaces(s: Seq<char>) -> int
    decreases s.len(),
{
    if s.len() == 0 {
        0
    } else if is_trim_space(s[0]) {
        1 + leading_spaces(s.drop_first())
    } else {
        0
    }
}

/// The length of the whitespace suffix of `s`.
pub open spec fn trailing_spaces(s: Seq<char>) -> int
    decreases s.len(),
{
    if s.len() == 0 {
        0
    } else if is_trim_space(s.last()) {
        1 + trailing_spaces(s.drop_last())
    } else {
        0
    }
}

/// `s` without its leading and trailing whitespace.
pub open spec fn trim_spec(s: Seq<char>) -> Seq<char> {
    if leading_spaces(s) == s.len() {
        Seq::empty()
    } else {
        s.subrange(leading_spaces(s), s.len() - trailing_spaces(s))
    }
}

proof fn lemma_leading_spaces_at(s: Seq<char>, i: int)
    requires
        0 <= i <= s.len(),
        forall|k: int| 0 <= k < i ==> is_trim_space(#[trigger] s[k]),
        i < s.len() ==> !is_trim_space(s[i]),
    ensures
        leading_spaces(s) == i,
    decreases i,
{
    if i > 0 {
        let t = s.drop_first();
        assert forall|k: int| 0 <= k < i - 1 implies is_trim_space(#[trigger] t[k]) by {
            assert(t[k] == s[k + 1]);
        }
        if i - 1 < t.len() {
            assert(t[i - 1] == s[i]);
        }
        lemma_leading_spaces_at(t, i - 1);
    }
}

proof fn lemma_trailing_spaces_at(s: Seq<char>, j: int)
    requires
        0 <= j <= s.len(),
        forall|k: int| s.len() - j <= k < s.len() ==> is_trim_space(#[trigger] s[k]),
        j < s.len() ==> !is_trim_space(s[s.len() - j - 1]),
    ensures
        trailing_spaces(s) == j,
    decreases j,
{
    if j > 0 {
        let t = s.drop_last();
        assert forall|k: int| t.len() - (j - 1) <= k < t.len() implies is_trim_space(
            #[trigger] t[k],
        ) by {
            assert(t[k] == s[k]);
        }
        if j - 1 < t.len() {
            assert(t[t.len() - (j - 1) - 1] == s[s.len() - j - 1]);
        }
        lemma_trailing_spaces_at(t, j - 1);
    }
}

/// A string of whitespace only (the empty string included) trims to nothing.
pub proof fn lemma_trim_all_space(s: Seq<char>)
    requires
        forall|i: int| 0 <= i < s.len() ==> is_trim_space(#[trigger] s[i]),
    ensures
        trim_spec(s).len() == 0,
{
    lemma_leading_spaces_at(s, s.len() as int);
}

/// A string whose first and last characters are not whitespace trims to
/// itself.
pub proof fn lemma_trim_trimmed(s: Seq<char>)
    requires
        s.len() > 0,
        !is_trim_space(s[0]),
        !is_trim_space(s.last()),
    ensures
        trim_spec(s) == s,
{
    lemma_leading_spaces_at(s, 0);
    lemma_trailing_spaces_at(s, 0);
    assert(trim_spec(s) =~= s);
}

/// Removes leading and trailing whitespace.
pub fn trim_str<'a>(s: &'a str) -> (r: &'a str)
    ensures
        r@ == trim_spec(s@),
{
    let n = s.unicode_len();
    let mut i: usize = 0;
    while i < n && is_trim_space_char(s.get_char(i))
        invariant
            n == s@.len(),
            i <= n,
            forall|k: int| 0 <= k < i ==> is_trim_space(#[trigger] s@[k]),
        decreases n - i,
    {
        i = i + 1;
    }
    if i == n {
        proof {
            lemma_leading_spaces_at(s@, n as int);
            assert(Seq::<char>::empty() =~= s@.subrange(n as int, n as int));
        }
        return s.substring_char(n, n);
    }
    proof {
        lemma_leading_spaces_at(s@, i as int);
    }
    let mut j: usize = n;
    while j > i && is_trim_space_char(s.get_char(j - 1))
        invariant
            n == s@.len(),
            i < n,
            i <= j <= n,
            !is_trim_space(s@[i as int]),
            forall|k: int| j <= k < n ==> is_trim_space(#[trigger] s@[k]),
        decreases j,
    {
        j = j - 1;
    }
    proof {
        assert(j > i);
        lemma_trailing_spaces_at(s@, n - j);
    }
    s.substring_char(i, j)
}

/// The trimmed input, or `default` when the input trims to nothing.
pub open spec fn str_or_val_spec(s: Seq<char>, default: Seq<char>) -> Seq<char> {
    if trim_spec(s).len() == 0 {
        default
    } else {
        trim_spec(s)
    }
}

/// Trims `s`; returns the trimmed value, or `default` when nothing is left.
pub fn str_or_val(s: &str, default: &str) -> (r: String)
    ensures
        r@ == str_or_val_spec(s@, default@),
{
    let t = trim_str(s);
    if t.is_empty() {
        String::from_str(default)
    } else {
        String::from_str(t)
    }
}

/// Relies on `String::push`: appends the given character to the end.
#[verifier::external_body]
pub(crate) fn push_char(s: &mut String, c: char)
    ensures
        final(s)@ == old(s)@.push(c),
{
    s.push(c);
}

/// Character-wise string equality.
pub fn str_eq(a: &str, b: &str) -> (r: bool)
    ensures
        r == (a@ == b@),
{
    let n = a.unicode_len();
    let m = b.unicode_len();
    if n != m {
        return false;
    }
    let mut i: usize = 0;
    while i < n
        invariant
            n == a@.len(),
            n == b@.len(),
            i <= n,
            forall|j: int| 0 <= j < i ==> a@[j] == b@[j],
        decreases n - i,
    {
        if a.get_char(i) != b.get_char(i) {
            return false;
        }
        i = i + 1;
    }
    proof {
        assert(a@ =~= b@);
    }
    true
}

} // verus!
