//! Character-sequence primitives shared by the classifier and the parsers:
//! equality, substring search, trimming and whitespace tokenization.

use vstd::prelude::*;

verus! {

/// The characters `str::trim` and `str::split_whitespace` treat as
/// whitespace: the Unicode `White_Space` property.
pub open spec fn is_space(c: char) -> bool {
    ||| c == ' '
    ||| c == '\t'
    ||| c == '\n'
    ||| c == '\r'
    ||| c == '\u{000B}'
    ||| c == '\u{000C}'
    ||| c == '\u{0085}'
    ||| c == '\u{00A0}'
    ||| c == '\u{1680}'
    ||| (0x2000 <= c as u32 && c as u32 <= 0x200A)
    ||| c == '\u{2028}'
    ||| c == '\u{2029}'
    ||| c == '\u{202F}'
    ||| c == '\u{205F}'
    ||| c == '\u{3000}'
}

/// Executable test for [`is_space`].
pub fn is_space_char(c: char) -> (r: bool)
    ensures
        r == is_space(c),
{
    let u = c as u32;
    u == 0x20 || u == 0x09 || u == 0x0A || u == 0x0D || u == 0x0B || u == 0x0C || u == 0x85
        || u == 0xA0 || u == 0x1680 || (0x2000 <= u && u <= 0x200A) || u == 0x2028 || u == 0x2029
        || u == 0x202F || u == 0x205F || u == 0x3000
}

/// The characters of `s`, one per `Vec` slot.
pub fn chars_of(s: &str) -> (v: Vec<char>)
    ensures
        v@ == s@,
{
    let n = s.unicode_len();
    let mut v: Vec<char> = Vec::new();
    let mut i: usize = 0;
    while i < n
        invariant
            n == s@.len(),
            i <= n,
            v@ == s@.subrange(0, i as int),
        decreases n - i,
    {
        v.push(s.get_char(i));
        i += 1;
    }
    proof {
        assert(v@ =~= s@);
    }
    v
}

/// String equality over the character views.
pub fn str_eq(a: &str, b: &str) -> (r: bool)
    ensures
        r == (a@ == b@),
{
    let na = a.unicode_len();
    let nb = b.unicode_len();
    if na != nb {
        return false;
    }
    let mut i: usize = 0;
    while i < na
        invariant
            na == a@.len(),
            na == b@.len(),
            i <= na,
            forall|j: int| 0 <= j < i ==> a@[j] == b@[j],
        decreases na - i,
    {
        if a.get_char(i) != b.get_char(i) {
            return false;
        }
        i += 1;
    }
    proof {
        assert(a@ =~= b@);
    }
    true
}

/// `sub` occurs in `s` starting at position `i`.
pub open spec fn matches_at(s: Seq<char>, sub: Seq<char>, i: int) -> bool {
    0 <= i && i + sub.len() <= s.len() && s.subrange(i, i + sub.len()) == sub
}

/// `sub` occurs somewhere in `s` (`str::contains`).
pub open spec fn has_substring(s: Seq<char>, sub: Seq<char>) -> bool {
    exists|i: int| matches_at(s, sub, i)
}

/// `pre` is a prefix of `s` (`str::starts_with`).
pub open spec fn is_prefix(pre: Seq<char>, s: Seq<char>) -> bool {
    pre.len() <= s.len() && s.subrange(0, pre.len() as int) == pre
}

/// Whether `sub` occurs in `s` at position `i`, checked directly.
fn matches_at_exec(s: &Vec<char>, sub: &Vec<char>, i: usize) -> (r: bool)
    requires
        i + sub@.len() <= s@.len(),
    ensures
        r == matches_at(s@, sub@, i as int),
{
    let n = s.len();
    let m = sub.len();
    let mut j: usize = 0;
    while j < m
        invariant
            n == s@.len(),
            m == sub@.len(),
            i + m <= n,
            j <= m,
            forall|k: int| 0 <= k < j ==> s@[i + k] == sub@[k],
        decreases m - j,
    {
        if s[i + j] != sub[j] {
            proof {
                assert(s@.subrange(i as int, i + sub@.len())[j as int] == s@[i + j]);
            }
            return false;
        }
        j += 1;
    }
    proof {
        assert(s@.subrange(i as int, i + sub@.len()) =~= sub@);
    }
    true
}

/// Position of the first occurrence of `sub` in `s`, or -1 when `sub` does
/// not occur. An empty `sub` occurs at position 0.
pub open spec fn find_sub(s: Seq<char>, sub: Seq<char>) -> int
    decreases s.len(),
{
    if matches_at(s, sub, 0) {
        0
    } else if s.len() == 0 {
        -1
    } else {
        let r = find_sub(s.drop_first(), sub);
        if r < 0 {
            -1
        } else {
            r + 1
        }
    }
}

/// Occurrences in the tail of `s` are occurrences in `s` shifted by one.
proof fn lemma_matches_at_shift(s: Seq<char>, sub: Seq<char>, i: int)
    requires
        s.len() > 0,
        0 <= i,
    ensures
        matches_at(s, sub, i + 1) == matches_at(s.drop_first(), sub, i),
{
    if i + 1 + sub.len() <= s.len() {
        assert(s.drop_first().subrange(i, i + sub.len() as int) =~= s.subrange(
            i + 1,
            i + 1 + sub.len() as int,
        ));
    }
}

/// [`find_sub`] returns the position of the first occurrence, or -1 when
/// there is none.
pub proof fn lemma_find_sub(s: Seq<char>, sub: Seq<char>)
    ensures
        find_sub(s, sub) >= -1,
        find_sub(s, sub) == -1 ==> !has_substring(s, sub),
        find_sub(s, sub) >= 0 ==> matches_at(s, sub, find_sub(s, sub)),
        find_sub(s, sub) >= 0 ==> forall|i: int| 0 <= i < find_sub(s, sub) ==> !matches_at(
            s,
            sub,
            i,
        ),
    decreases s.len(),
{
    if matches_at(s, sub, 0) {
    } else if s.len() == 0 {
        assert forall|i: int| !matches_at(s, sub, i) by {
            if 0 <= i && i + sub.len() <= s.len() {
                assert(i == 0);
            }
        }
    } else {
        lemma_find_sub(s.drop_first(), sub);
        let r = find_sub(s.drop_first(), sub);
        if r < 0 {
            assert forall|i: int| !matches_at(s, sub, i) by {
                if i > 0 {
                    lemma_matches_at_shift(s, sub, i - 1);
                } else if i == 0 {
                } else {
                }
            }
        } else {
            lemma_matches_at_shift(s, sub, r);
            assert forall|i: int| 0 <= i < r + 1 implies !matches_at(s, sub, i) by {
                if i > 0 {
                    lemma_matches_at_shift(s, sub, i - 1);
                }
            }
        }
    }
}

/// Position of the first occurrence of `sub` in `s`, scanning left to right.
pub fn find_in_chars(s: &Vec<char>, sub: &Vec<char>) -> (r: Option<usize>)
    ensures
        match r {
            Some(i) => i == find_sub(s@, sub@) && matches_at(s@, sub@, i as int),
            None => find_sub(s@, sub@) == -1 && !has_substring(s@, sub@),
        },
{
    proof {
        lemma_find_sub(s@, sub@);
    }
    let n = s.len();
    let m = sub.len();
    if m > n {
        proof {
            assert forall|i: int| !matches_at(s@, sub@, i) by {
                if 0 <= i && i + sub@.len() <= s@.len() {
                    assert(sub@.len() <= s@.len());
                }
            }
        }
        return None;
    }
    if m == 0 {
        proof {
            assert(s@.subrange(0, 0) =~= sub@);
        }
        return Some(0);
    }
    let mut i: usize = 0;
    while i <= n - m
        invariant
            n == s@.len(),
            m == sub@.len(),
            0 < m <= n,
            i <= n - m + 1,
            forall|k: int| 0 <= k < i ==> !matches_at(s@, sub@, k),
        decreases n - m + 1 - i,
    {
        if matches_at_exec(s, sub, i) {
            proof {
                lemma_find_sub(s@, sub@);
                let f = find_sub(s@, sub@);
                if 0 <= f < i {
                    assert(!matches_at(s@, sub@, f));
                }
            }
            return Some(i);
        }
        i += 1;
    }
    proof {
        assert forall|k: int| !matches_at(s@, sub@, k) by {
            if 0 <= k && k + sub@.len() <= s@.len() {
                assert(k <= n - m);
            }
        }
    }
    None
}

/// `str::contains` over the views.
pub fn contains_str(s: &str, sub: &str) -> (r: bool)
    ensures
        r == has_substring(s@, sub@),
{
    let sv = chars_of(s);
    let bv = chars_of(sub);
    match find_in_chars(&sv, &bv) {
        Some(_) => true,
        None => false,
    }
}

/// `str::starts_with` over the views.
pub fn starts_with_str(s: &str, pre: &str) -> (r: bool)
    ensures
        r == is_prefix(pre@, s@),
{
    let sv = chars_of(s);
    let pv = chars_of(pre);
    starts_with_chars(&sv, &pv)
}

/// [`is_prefix`], checked directly.
pub fn starts_with_chars(s: &Vec<char>, pre: &Vec<char>) -> (r: bool)
    ensures
        r == is_prefix(pre@, s@),
{
    if pre.len() > s.len() {
        return false;
    }
    matches_at_exec(s, pre, 0)
}

/// `s` without its leading whitespace (`str::trim_start`).
pub open spec fn skip_spaces(s: Seq<char>) -> Seq<char>
    decreases s.len(),
{
    if s.len() > 0 && is_space(s[0]) {
        skip_spaces(s.drop_first())
    } else {
        s
    }
}

/// `s` from its first whitespace character on.
pub open spec fn skip_word(s: Seq<char>) -> Seq<char>
    decreases s.len(),
{
    if s.len() > 0 && !is_space(s[0]) {
        skip_word(s.drop_first())
    } else {
        s
    }
}

/// The longest whitespace-free prefix of `s`.
pub open spec fn take_word(s: Seq<char>) -> Seq<char>
    decreases s.len(),
{
    if s.len() > 0 && !is_space(s[0]) {
        seq![s[0]] + take_word(s.drop_first())
    } else {
        Seq::empty()
    }
}

/// `s` without its trailing whitespace (`str::trim_end`).
pub open spec fn trim_end_spec(s: Seq<char>) -> Seq<char>
    decreases s.len(),
{
    if s.len() > 0 && is_space(s.last()) {
        trim_end_spec(s.drop_last())
    } else {
        s
    }
}

/// `str::trim`: leading and trailing whitespace removed.
pub open spec fn trim_spec(s: Seq<char>) -> Seq<char> {
    trim_end_spec(skip_spaces(s))
}

/// The second whitespace-separated token of `s`, empty when there is none
/// (`split_whitespace().nth(1)`; a present token is never empty).
pub open spec fn second_word(s: Seq<char>) -> Seq<char> {
    take_word(skip_spaces(skip_word(skip_spaces(s))))
}

/// When the first `k` characters are whitespace and the next one (if any) is
/// not, [`skip_spaces`] drops exactly those `k`.
pub proof fn lemma_skip_spaces_index(s: Seq<char>, k: int)
    requires
        0 <= k <= s.len(),
        forall|j: int| 0 <= j < k ==> is_space(s[j]),
        k < s.len() ==> !is_space(s[k]),
    ensures
        skip_spaces(s) == s.subrange(k, s.len() as int),
    decreases k,
{
    if k == 0 {
        assert(s.subrange(0, s.len() as int) =~= s);
    } else {
        lemma_skip_spaces_index(s.drop_first(), k - 1);
        assert(s.drop_first().subrange(k - 1, s.len() - 1) =~= s.subrange(k, s.len() as int));
    }
}

/// When the first `k` characters are not whitespace and the next one (if
/// any) is, [`skip_word`] drops exactly those `k`.
pub proof fn lemma_skip_word_index(s: Seq<char>, k: int)
    requires
        0 <= k <= s.len(),
        forall|j: int| 0 <= j < k ==> !is_space(s[j]),
        k < s.len() ==> is_space(s[k]),
    ensures
        skip_word(s) == s.subrange(k, s.len() as int),
    decreases k,
{
    if k == 0 {
        assert(s.subrange(0, s.len() as int) =~= s);
    } else {
        lemma_skip_word_index(s.drop_first(), k - 1);
        assert(s.drop_first().subrange(k - 1, s.len() - 1) =~= s.subrange(k, s.len() as int));
    }
}

/// Under the same conditions, [`take_word`] keeps exactly those `k`.
pub proof fn lemma_take_word_index(s: Seq<char>, k: int)
    requires
        0 <= k <= s.len(),
        forall|j: int| 0 <= j < k ==> !is_space(s[j]),
        k < s.len() ==> is_space(s[k]),
    ensures
        take_word(s) == s.subrange(0, k),
    decreases k,
{
    if k == 0 {
        assert(s.subrange(0, 0) =~= Seq::<char>::empty());
    } else {
        lemma_take_word_index(s.drop_first(), k - 1);
        assert(s.drop_first().subrange(0, k - 1) =~= s.subrange(1, k));
        assert(seq![s[0]] + s.subrange(1, k) =~= s.subrange(0, k));
    }
}

/// When everything from position `b` on is whitespace and the character
/// before `b` (if any) is not, [`trim_end_spec`] keeps exactly the first `b`.
pub proof fn lemma_trim_end_index(s: Seq<char>, b: int)
    requires
        0 <= b <= s.len(),
        forall|j: int| b <= j < s.len() ==> is_space(s[j]),
        b > 0 ==> !is_space(s[b - 1]),
    ensures
        trim_end_spec(s) == s.subrange(0, b),
    decreases s.len() - b,
{
    if b == s.len() {
        if s.len() > 0 && is_space(s.last()) {
            assert(!is_space(s[b - 1]));
        }
        assert(s.subrange(0, s.len() as int) =~= s);
    } else {
        lemma_trim_end_index(s.drop_last(), b);
        assert(s.drop_last().subrange(0, b) =~= s.subrange(0, b));
    }
}

/// First position at or after `from` whose character is not whitespace.
pub fn scan_spaces(v: &Vec<char>, from: usize) -> (r: usize)
    requires
        from <= v@.len(),
    ensures
        from <= r <= v@.len(),
        forall|j: int| from <= j < r ==> is_space(v@[j]),
        r < v@.len() ==> !is_space(v@[r as int]),
{
    let n = v.len();
    let mut i: usize = from;
    while i < n
        invariant
            from <= i <= n,
            n == v@.len(),
            forall|j: int| from <= j < i ==> is_space(v@[j]),
        decreases n - i,
    {
        if !is_space_char(v[i]) {
            return i;
        }
        i += 1;
    }
    i
}

/// First position at or after `from` whose character is whitespace.
pub fn scan_word(v: &Vec<char>, from: usize) -> (r: usize)
    requires
        from <= v@.len(),
    ensures
        from <= r <= v@.len(),
        forall|j: int| from <= j < r ==> !is_space(v@[j]),
        r < v@.len() ==> is_space(v@[r as int]),
{
    let n = v.len();
    let mut i: usize = from;
    while i < n
        invariant
            from <= i <= n,
            n == v@.len(),
            forall|j: int| from <= j < i ==> !is_space(v@[j]),
        decreases n - i,
    {
        if is_space_char(v[i]) {
            return i;
        }
        i += 1;
    }
    i
}

/// `str::trim` as an owned string.
pub fn trimmed(s: &str) -> (r: String)
    ensures
        r@ == trim_spec(s@),
{
    let v = chars_of(s);
    let n = v.len();
    let a = scan_spaces(&v, 0);
    let mut b: usize = n;
    while b > a && is_space_char(v[b - 1])
        invariant
            a <= b <= n,
            n == v@.len(),
            forall|j: int| b <= j < n ==> is_space(v@[j]),
        decreases b,
    {
        b -= 1;
    }
    proof {
        lemma_skip_spaces_index(s@, a as int);
        let t = s@.subrange(a as int, s@.len() as int);
        lemma_trim_end_index(t, b - a);
        assert(t.subrange(0, b - a) =~= s@.subrange(a as int, b as int));
    }
    let r = s.substring_char(a, b);
    String::from_str(r)
}

/// The second whitespace-separated token, or the empty string when `s` has
/// fewer than two tokens.
pub fn second_word_of(s: &str) -> (r: String)
    ensures
        r@ == second_word(s@),
{
    let v = chars_of(s);
    let n = v.len();
    let i0 = scan_spaces(&v, 0);
    let i1 = scan_word(&v, i0);
    let i2 = scan_spaces(&v, i1);
    let i3 = scan_word(&v, i2);
    proof {
        let len = s@.len() as int;
        lemma_skip_spaces_index(s@, i0 as int);
        let t0 = s@.subrange(i0 as int, len);
        lemma_skip_word_index(t0, i1 - i0);
        assert(t0.subrange(i1 - i0, t0.len() as int) =~= s@.subrange(i1 as int, len));
        let t1 = s@.subrange(i1 as int, len);
        lemma_skip_spaces_index(t1, i2 - i1);
        assert(t1.subrange(i2 - i1, t1.len() as int) =~= s@.subrange(i2 as int, len));
        let t2 = s@.subrange(i2 as int, len);
        lemma_take_word_index(t2, i3 - i2);
        assert(t2.subrange(0, i3 - i2) =~= s@.subrange(i2 as int, i3 as int));
    }
    let r = s.substring_char(i2, i3);
    String::from_str(r)
}

/// `s` without its trailing copies of `c` (`str::trim_end_matches` with a
/// single-character pattern).
pub open spec fn drop_trailing(s: Seq<char>, c: char) -> Seq<char>
    decreases s.len(),
{
    if s.len() > 0 && s.last() == c {
        drop_trailing(s.drop_last(), c)
    } else {
        s
    }
}

/// When everything from position `b` on equals `c` and the character before
/// `b` (if any) does not, [`drop_trailing`] keeps exactly the first `b`.
pub proof fn lemma_drop_trailing_index(s: Seq<char>, c: char, b: int)
    requires
        0 <= b <= s.len(),
        forall|j: int| b <= j < s.len() ==> s[j] == c,
        b > 0 ==> s[b - 1] != c,
    ensures
        drop_trailing(s, c) == s.subrange(0, b),
    decreases s.len() - b,
{
    if b == s.len() {
        if s.len() > 0 && s.last() == c {
            assert(s[b - 1] != c);
        }
        assert(s.subrange(0, s.len() as int) =~= s);
    } else {
        lemma_drop_trailing_index(s.drop_last(), c, b);
        assert(s.drop_last().subrange(0, b) =~= s.subrange(0, b));
    }
}

/// [`drop_trailing`] as an owned string.
pub fn drop_trailing_of(s: &str, c: char) -> (r: String)
    ensures
        r@ == drop_trailing(s@, c),
{
    let v = chars_of(s);
    let n = v.len();
    let mut b: usize = n;
    while b > 0 && v[b - 1] == c
        invariant
            b <= n,
            n == v@.len(),
            forall|j: int| b <= j < n ==> v@[j] == c,
        decreases b,
    {
        b -= 1;
    }
    proof {
        lemma_drop_trailing_index(s@, c, b as int);
    }
    let r = s.substring_char(0, b);
    String::from_str(r)
}

} // verus!
