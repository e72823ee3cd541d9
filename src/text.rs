use vstd::prelude::*;

verus! {

use crate::model::strings_view;

/// The index of the first `c` in `s`, or its length if there is none.
pub open spec fn find_char(s: Seq<char>, c: char) -> int
    decreases s.len(),
{
    if s.len() == 0 {
        0
    } else if s[0] == c {
        0
    } else {
        1 + find_char(s.drop_first(), c)
    }
}

/// The parts of `s` between the occurrences of `sep`.
pub open spec fn pieces(s: Seq<char>, sep: char) -> Seq<Seq<char>>
    decreases s.len(),
{
    let i = find_char(s, sep);
    if 0 <= i < s.len() {
        seq![s.take(i)] + pieces(s.skip(i + 1), sep)
    } else {
        seq![s]
    }
}

pub proof fn lemma_find_char(s: Seq<char>, c: char, i: int)
    requires
        0 <= i <= s.len(),
        forall|k: int| 0 <= k < i ==> s[k] != c,
        i == s.len() || s[i] == c,
    ensures
        find_char(s, c) == i,
    decreases i,
{
    if i > 0 {
        lemma_find_char(s.drop_first(), c, i - 1);
    }
}

/// The parts of `s` between the occurrences of `sep`.
pub fn split_on(s: &str, sep: char) -> (r: Vec<String>)
    ensures
        strings_view(r@) == pieces(s@, sep),
{
    let mut out: Vec<String> = Vec::new();
    let mut rest: &str = s;
    loop
        invariant
            pieces(s@, sep) == strings_view(out@) + pieces(rest@, sep),
        decreases rest@.len(),
    {
        let n = rest.unicode_len();
        let mut i: usize = 0;
        while i < n && rest.get_char(i) != sep
            invariant
                n == rest@.len(),
                i <= n,
                forall|k: int| 0 <= k < i ==> rest@[k] != sep,
            decreases n - i,
        {
            i = i + 1;
        }
        proof {
            lemma_find_char(rest@, sep, i as int);
        }
        let ghost before = out@;
        if i == n {
            out.push(rest.to_owned());
            assert(strings_view(out@) =~= strings_view(before) + seq![rest@]);
            assert(strings_view(before) + seq![rest@] =~= strings_view(before) + pieces(rest@, sep));
            return out;
        }
        let head = rest.substring_char(0, i);
        let tail = rest.substring_char(i + 1, n);
        assert(head@ =~= rest@.take(i as int));
        assert(tail@ =~= rest@.skip(i + 1));
        out.push(head.to_owned());
        assert(strings_view(out@) =~= strings_view(before) + seq![head@]);
        assert(strings_view(before) + pieces(rest@, sep) =~= strings_view(out@) + pieces(tail@, sep));
        rest = tail;
    }
}

} // verus!
