use vstd::prelude::*;
use vstd::string::StrSliceExecFns;
use vstd::string::StringExecFns;

verus! {

/// `s` with every leading repetition of `p` removed; `s` itself when
/// `p` is empty or not a prefix.
pub open spec fn strip_prefix_all(s: Seq<char>, p: Seq<char>) -> Seq<char>
    decreases s.len(),
{
    if p.len() > 0 && p.len() <= s.len() && s.subrange(0, p.len() as int) == p {
        strip_prefix_all(s.skip(p.len() as int), p)
    } else {
        s
    }
}

/// True exactly when `prefix` starts `s`.
pub fn has_prefix(s: &str, prefix: &str) -> (r: bool)
    ensures
        r == (prefix@.len() <= s@.len() && s@.subrange(0, prefix@.len() as int) == prefix@),
{
    let n: usize = prefix.unicode_len();
    let s_len: usize = s.unicode_len();
    if n > s_len {
        return false;
    }
    let mut k: usize = 0;
    while k < n
        invariant
            0 <= k <= n,
            n == prefix@.len(),
            n <= s@.len(),
            forall|j: int| 0 <= j < k ==> s@[j] == prefix@[j],
        decreases n - k,
    {
        if s.get_char(k) != prefix.get_char(k) {
            proof {
                if s@.subrange(0, n as int) == prefix@ {
                    assert(s@.subrange(0, n as int)[k as int] == s@[k as int]);
                }
            }
            return false;
        }
        k = k + 1;
    }
    proof {
        assert(s@.subrange(0, n as int) =~= prefix@);
    }
    true
}

/// Removes every leading repetition of `prefix` from `s`.
pub fn trim_start_matches_str(s: &str, prefix: &str) -> (r: String)
    ensures
        r@ == strip_prefix_all(s@, prefix@),
{
    let n: usize = prefix.unicode_len();
    let mut cur: String = s.to_owned();
    if n == 0 {
        return cur;
    }
    while has_prefix(cur.as_str(), prefix)
        invariant
            n == prefix@.len(),
            n > 0,
            strip_prefix_all(cur@, prefix@) == strip_prefix_all(s@, prefix@),
        decreases cur@.len(),
    {
        let cur_len: usize = cur.as_str().unicode_len();
        let rest: String = cur.as_str().substring_char(n, cur_len).to_owned();
        proof {
            assert(rest@ =~= cur@.skip(n as int));
        }
        cur = rest;
    }
    cur
}

} // verus!
