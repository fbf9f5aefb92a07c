//! Splitting captured command output into lines, as `str::lines` does.

use vstd::prelude::*;

use crate::text::{chars_of, find_sub, lemma_find_sub, matches_at};

verus! {

/// One line as `str::lines` yields it: the trailing carriage return is
/// stripped only from a line that a line feed terminated.
pub open spec fn strip_cr(l: Seq<char>) -> Seq<char> {
    if l.len() > 0 && l.last() == '\r' {
        l.drop_last()
    } else {
        l
    }
}

/// The lines of `s` (`str::lines`): split at `\n`, each line stripped of a
/// trailing `\r`, the final line ending optional, and no line for the empty
/// string.
pub open spec fn split_lines_spec(s: Seq<char>) -> Seq<Seq<char>>
    decreases s.len(),
{
    if s.len() == 0 {
        Seq::empty()
    } else {
        let k = find_sub(s, seq!['\n']);
        if 0 <= k && k < s.len() {
            seq![strip_cr(s.subrange(0, k))] + split_lines_spec(
                s.subrange(k + 1, s.len() as int),
            )
        } else {
            seq![s]
        }
    }
}

/// A singleton pattern occurs at `i` exactly when the character there is the
/// pattern's one character.
proof fn lemma_matches_at_single(s: Seq<char>, c: char, i: int)
    requires
        0 <= i < s.len(),
    ensures
        matches_at(s, seq![c], i) == (s[i] == c),
{
    assert(s.subrange(i, i + 1) =~= seq![s[i]]);
    if s[i] == c {
        assert(s.subrange(i, i + 1) =~= seq![c]);
    } else {
        if s.subrange(i, i + 1) == seq![c] {
            assert(s.subrange(i, i + 1)[0] == c);
        }
    }
}

/// The lines of `s`, as owned strings.
pub fn split_lines(s: &str) -> (r: Vec<String>)
    ensures
        r.deep_view() == split_lines_spec(s@),
{
    let v = chars_of(s);
    let n = v.len();
    let mut out: Vec<String> = Vec::new();
    let mut pos: usize = 0;
    proof {
        assert(s@.subrange(0, n as int) =~= s@);
        assert(out.deep_view() =~= Seq::<Seq<char>>::empty());
        assert(out.deep_view() + split_lines_spec(s@) =~= split_lines_spec(s@));
    }
    while pos < n
        invariant
            pos <= n,
            n == v@.len(),
            v@ == s@,
            split_lines_spec(s@) == out.deep_view() + split_lines_spec(
                s@.subrange(pos as int, n as int),
            ),
        decreases n - pos,
    {
        let ghost prev = out.deep_view();
        let ghost t = s@.subrange(pos as int, n as int);
        let mut j: usize = pos;
        while j < n && v[j] != '\n'
            invariant
                pos <= j <= n,
                n == v@.len(),
                forall|k: int| pos <= k < j ==> v@[k] != '\n',
            decreases n - j,
        {
            j += 1;
        }
        let e: usize = if j < n && j > pos && v[j - 1] == '\r' {
            j - 1
        } else {
            j
        };
        let line = String::from_str(s.substring_char(pos, e));
        out.push(line);
        proof {
            lemma_find_sub(t, seq!['\n']);
            let f = find_sub(t, seq!['\n']);
            assert forall|k: int| 0 <= k < j - pos implies !matches_at(t, seq!['\n'], k) by {
                lemma_matches_at_single(t, '\n', k);
            }
            if j < n {
                lemma_matches_at_single(t, '\n', j - pos);
                assert(matches_at(t, seq!['\n'], j - pos));
                if f < j - pos {
                    assert(!matches_at(t, seq!['\n'], f));
                }
                assert(f == j - pos);
                assert(t.subrange(0, f) =~= s@.subrange(pos as int, j as int));
                if j > pos && v@[j - 1] == '\r' {
                    assert(t.subrange(0, f).last() == '\r');
                    assert(strip_cr(t.subrange(0, f)) =~= s@.subrange(pos as int, e as int));
                } else {
                    assert(strip_cr(t.subrange(0, f)) =~= s@.subrange(pos as int, e as int));
                }
                assert(t.subrange(f + 1, t.len() as int) =~= s@.subrange(j + 1, n as int));
                assert(split_lines_spec(t) == seq![line@] + split_lines_spec(
                    s@.subrange(j + 1, n as int),
                ));
            } else {
                if f >= 0 {
                    assert(matches_at(t, seq!['\n'], f));
                    assert(!matches_at(t, seq!['\n'], f));
                }
                assert(split_lines_spec(t) == seq![t]);
                assert(t =~= s@.subrange(pos as int, e as int));
                assert(line@ == t);
                assert(s@.subrange(n as int, n as int) =~= Seq::<char>::empty());
                assert(split_lines_spec(s@.subrange(n as int, n as int)) == Seq::<Seq<char>>::empty());
            }
            assert(out.deep_view() =~= prev + seq![line@]);
        }
        pos = if j < n {
            j + 1
        } else {
            n
        };
        proof {
            let rest = split_lines_spec(s@.subrange(pos as int, n as int));
            assert((prev + seq![line@]) + rest =~= prev + (seq![line@] + rest));
            assert(split_lines_spec(s@) == out.deep_view() + rest);
        }
    }
    proof {
        assert(s@.subrange(pos as int, n as int) =~= Seq::<char>::empty());
        assert(split_lines_spec(s@) =~= out.deep_view());
    }
    out
}

} // verus!
