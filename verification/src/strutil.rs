//! Verified string helpers: equality, prefix tests, and splitting a dotted
//! path into its segments.

use vstd::prelude::*;
use vstd::string::StrSliceExecFns;

verus! {

/// Character-wise string equality.
pub fn str_eq(a: &str, b: &str) -> (r: bool)
    ensures
        r == (a@ == b@),
{
    let an = a.unicode_len();
    let bn = b.unicode_len();
    if an != bn {
        proof {
            assert(a@ != b@) by {
                assert(a@.len() != b@.len());
            }
        }
        return false;
    }
    let mut i: usize = 0;
    while i < an
        invariant
            i <= an,
            an == a@.len() == b@.len(),
            forall|j: int| 0 <= j < i ==> a@[j] == b@[j],
        decreases an - i,
    {
        if a.get_char(i) != b.get_char(i) {
            return false;
        }
        i = i + 1;
    }
    proof {
        assert(a@ =~= b@);
    }
    true
}

/// Whether `p` is a prefix of `s`, character by character.
pub fn str_starts_with(s: &str, p: &str) -> (r: bool)
    ensures
        r == p@.is_prefix_of(s@),
{
    let sn = s.unicode_len();
    let pn = p.unicode_len();
    if pn > sn {
        return false;
    }
    let mut i: usize = 0;
    while i < pn
        invariant
            i <= pn,
            pn == p@.len() <= s@.len(),
            forall|j: int| 0 <= j < i ==> s@[j] == p@[j],
        decreases pn - i,
    {
        if s.get_char(i) != p.get_char(i) {
            return false;
        }
        i = i + 1;
    }
    proof {
        assert(s@.take(p@.len() as int) =~= p@);
    }
    true
}

/// The segments of `s` split on `sep`: `n` separators give `n + 1`
/// segments, in order, none containing `sep`.
pub open spec fn split_on(s: Seq<char>, sep: char) -> Seq<Seq<char>>
    decreases s.len(),
{
    if s.len() == 0 {
        seq![Seq::<char>::empty()]
    } else {
        let rest = split_on(s.skip(1), sep);
        if s[0] == sep {
            seq![Seq::<char>::empty()] + rest
        } else {
            rest.update(0, seq![s[0]] + rest[0])
        }
    }
}

/// `split_on` never yields an empty list of segments.
pub proof fn lemma_split_on_nonempty(s: Seq<char>, sep: char)
    ensures
        split_on(s, sep).len() >= 1,
    decreases s.len(),
{
    if s.len() > 0 {
        lemma_split_on_nonempty(s.skip(1), sep);
    }
}

/// Splits `s` on `.` into owned segments, as `str::split('.')` yields them.
pub fn split_dots(s: &str) -> (r: Vec<String>)
    ensures
        r@.map_values(|p: String| p@) == split_on(s@, '.'),
{
    let n = s.unicode_len();
    let mut done: Vec<String> = Vec::new();
    let mut cur: String = String::new();
    let mut i: usize = 0;
    proof {
        assert(s@.skip(0) =~= s@);
        lemma_split_on_nonempty(s@, '.');
        assert(done@.map_values(|p: String| p@) + prefix_first(cur@, split_on(s@, '.'))
            =~~= split_on(s@, '.'));
    }
    while i < n
        invariant
            i <= n,
            n == s@.len(),
            split_on(s@, '.') == done@.map_values(|p: String| p@) + prefix_first(
                cur@,
                split_on(s@.skip(i as int), '.'),
            ),
        decreases n - i,
    {
        proof {
            lemma_split_on_nonempty(s@.skip(i + 1), '.');
            assert(s@.skip(i as int)[0] == s@[i as int]);
            assert(s@.skip(i as int).skip(1) =~= s@.skip(i + 1));
        }
        let c = s.get_char(i);
        if c == '.' {
            let ghost old_done = done@;
            let ghost old_cur = cur@;
            done.push(cur);
            cur = String::new();
            proof {
                let rest = split_on(s@.skip(i + 1), '.');
                assert(prefix_first(old_cur, seq![Seq::<char>::empty()] + rest) =~~= seq![old_cur]
                    + rest);
                assert(prefix_first(Seq::<char>::empty(), rest) =~~= rest);
                assert(done@.map_values(|p: String| p@) =~= old_done.map_values(|p: String| p@)
                    + seq![old_cur]);
                assert(done@.map_values(|p: String| p@) + prefix_first(cur@, rest) =~~= old_done.map_values(
                    |p: String| p@,
                ) + prefix_first(old_cur, split_on(s@.skip(i as int), '.')));
            }
        } else {
            let ghost old_cur = cur@;
            let piece = s.substring_char(i, i + 1);
            proof {
                assert(piece@ =~= seq![s@[i as int]]);
            }
            cur.append(piece);
            proof {
                let rest = split_on(s@.skip(i + 1), '.');
                assert(prefix_first(old_cur, rest.update(0, seq![s@[i as int]] + rest[0]))
                    =~~= prefix_first(old_cur + seq![s@[i as int]], rest));
                assert(cur@ == old_cur + seq![s@[i as int]]);
            }
        }
        i = i + 1;
    }
    proof {
        assert(s@.skip(n as int) =~= Seq::<char>::empty());
        assert(prefix_first(cur@, split_on(s@.skip(n as int), '.')) =~~= seq![cur@]);
    }
    let ghost old_done = done@;
    done.push(cur);
    proof {
        assert(done@.map_values(|p: String| p@) =~= old_done.map_values(|p: String| p@) + seq![
            done@.last()@,
        ]);
    }
    done
}

/// `parts` with its first segment prefixed by `p`.
pub open spec fn prefix_first(p: Seq<char>, parts: Seq<Seq<char>>) -> Seq<Seq<char>> {
    parts.update(0, p + parts[0])
}

} // verus!
