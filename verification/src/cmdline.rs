//! Kernel command-line token extraction.
//!
//! The boot command line is a sequence of tokens separated by ASCII
//! whitespace. A token of the form `key=value` binds `key` to `value`;
//! a token without `=` binds nothing and is skipped. Extraction returns
//! the value of the first token whose key matches exactly.

use vstd::prelude::*;
use vstd::slice::{slice_index_get, slice_subrange, slice_to_vec};

verus! {

/// Whether `b` is an ASCII whitespace byte: space, tab, line feed,
/// form feed or carriage return.
pub open spec fn is_ws(b: u8) -> bool {
    b == 32 || b == 9 || b == 10 || b == 12 || b == 13
}

/// Length of the maximal whitespace-free prefix of `s`.
pub open spec fn token_len(s: Seq<u8>) -> nat
    decreases s.len(),
{
    if s.len() == 0 || is_ws(s[0]) {
        0
    } else {
        1 + token_len(s.skip(1))
    }
}

proof fn lemma_token_len_le(s: Seq<u8>)
    ensures
        token_len(s) <= s.len(),
    decreases s.len(),
{
    if s.len() > 0 && !is_ws(s[0]) {
        lemma_token_len_le(s.skip(1));
    }
}

/// The whitespace-separated tokens of `s`, in order.
pub open spec fn tokens(s: Seq<u8>) -> Seq<Seq<u8>>
    decreases s.len(),
    via tokens_decreases
{
    if s.len() == 0 {
        Seq::empty()
    } else if is_ws(s[0]) {
        tokens(s.skip(1))
    } else {
        seq![s.take(token_len(s) as int)] + tokens(s.skip(token_len(s) as int))
    }
}

#[via_fn]
proof fn tokens_decreases(s: Seq<u8>) {
    if s.len() > 0 && !is_ws(s[0]) {
        lemma_token_len_le(s);
    }
}

/// Index of the first `=` in `t`, or `t.len()` if there is none.
pub open spec fn eq_pos(t: Seq<u8>) -> nat
    decreases t.len(),
{
    if t.len() == 0 {
        0
    } else if t[0] == 61 {
        0
    } else {
        1 + eq_pos(t.skip(1))
    }
}

/// Whether token `t` has the form `key=...` with key exactly `key`.
pub open spec fn token_matches(t: Seq<u8>, key: Seq<u8>) -> bool {
    eq_pos(t) < t.len() && t.take(eq_pos(t) as int) == key
}

/// The value part of a token of the form `key=value`: everything after
/// the first `=`.
pub open spec fn token_value(t: Seq<u8>) -> Seq<u8> {
    t.skip(eq_pos(t) as int + 1)
}

/// The value of the first token in `toks` whose key is `key`.
pub open spec fn find_in_tokens(toks: Seq<Seq<u8>>, key: Seq<u8>) -> Option<Seq<u8>>
    decreases toks.len(),
{
    if toks.len() == 0 {
        None
    } else if token_matches(toks[0], key) {
        Some(token_value(toks[0]))
    } else {
        find_in_tokens(toks.skip(1), key)
    }
}

/// The value bound to `key` by command line `s`, if any.
pub open spec fn cmdline_value(s: Seq<u8>, key: Seq<u8>) -> Option<Seq<u8>> {
    find_in_tokens(tokens(s), key)
}

proof fn lemma_token_len_from_scan(s: Seq<u8>, j: int)
    requires
        0 <= j <= s.len(),
        forall|k: int| 0 <= k < j ==> !is_ws(s[k]),
        j == s.len() || is_ws(s[j]),
    ensures
        token_len(s) == j,
    decreases j,
{
    if j > 0 {
        assert(forall|k: int| 0 <= k < j - 1 ==> s.skip(1)[k] == s[k + 1]);
        lemma_token_len_from_scan(s.skip(1), j - 1);
    }
}

proof fn lemma_eq_pos_from_scan(t: Seq<u8>, k: int)
    requires
        0 <= k <= t.len(),
        forall|m: int| 0 <= m < k ==> t[m] != 61,
        k == t.len() || t[k] == 61,
    ensures
        eq_pos(t) == k,
    decreases k,
{
    if k > 0 {
        assert(forall|m: int| 0 <= m < k - 1 ==> t.skip(1)[m] == t[m + 1]);
        lemma_eq_pos_from_scan(t.skip(1), k - 1);
    }
}

proof fn lemma_ws_step(s: Seq<u8>, i: int)
    requires
        0 <= i < s.len(),
        is_ws(s[i]),
    ensures
        tokens(s.skip(i)) == tokens(s.skip(i + 1)),
{
    assert(s.skip(i)[0] == s[i]);
    assert(s.skip(i).skip(1) =~= s.skip(i + 1));
}

proof fn lemma_token_step(s: Seq<u8>, i: int, j: int)
    requires
        0 <= i < j <= s.len(),
        forall|k: int| i <= k < j ==> !is_ws(s[k]),
        j == s.len() || is_ws(s[j]),
    ensures
        tokens(s.skip(i)) == seq![s.subrange(i, j)] + tokens(s.skip(j)),
{
    let u = s.skip(i);
    assert(forall|k: int| 0 <= k < j - i ==> u[k] == s[k + i] && !is_ws(u[k]));
    lemma_token_len_from_scan(u, j - i);
    assert(!is_ws(u[0]));
    assert(u.take(j - i) =~= s.subrange(i, j));
    assert(u.skip(j - i) =~= s.skip(j));
}

/// Whether two byte slices hold the same bytes.
fn bytes_eq(a: &[u8], b: &[u8]) -> (r: bool)
    ensures
        r == (a@ == b@),
{
    if a.len() != b.len() {
        return false;
    }
    let mut i: usize = 0;
    while i < a.len()
        invariant
            i <= a@.len(),
            a@.len() == b@.len(),
            forall|k: int| 0 <= k < i ==> a@[k] == b@[k],
        decreases a@.len() - i,
    {
        if *slice_index_get(a, i) != *slice_index_get(b, i) {
            return false;
        }
        i = i + 1;
    }
    assert(a@ =~= b@);
    true
}

/// Extracts the value of the first well-formed `key=value` token whose key
/// equals `want_param`, scanning whitespace-separated tokens left to right.
/// A token without `=` is skipped. Returns the not-found sentinel when no
/// token's key matches.
pub fn find_cmdline(contents: &[u8], want_param: &[u8]) -> (r: Option<Vec<u8>>)
    ensures
        match r {
            Some(v) => cmdline_value(contents@, want_param@) == Some(v@),
            None => cmdline_value(contents@, want_param@) == None::<Seq<u8>>,
        },
{
    let n = contents.len();
    let mut i: usize = 0;
    proof {
        assert(contents@.skip(0) =~= contents@);
    }
    while i < n
        invariant
            n == contents@.len(),
            i <= n,
            find_in_tokens(tokens(contents@.skip(i as int)), want_param@) == cmdline_value(
                contents@,
                want_param@,
            ),
        decreases n - i,
    {
        let b = *slice_index_get(contents, i);
        if b == 32 || b == 9 || b == 10 || b == 12 || b == 13 {
            proof {
                lemma_ws_step(contents@, i as int);
            }
            i = i + 1;
        } else {
            // the token occupies [i, j)
            let mut j: usize = i;
            loop
                invariant
                    i <= j <= n,
                    n == contents@.len(),
                    forall|k: int| i <= k < j ==> !is_ws(contents@[k]),
                ensures
                    i <= j <= n,
                    j == n || is_ws(contents@[j as int]),
                    forall|k: int| i <= k < j ==> !is_ws(contents@[k]),
                decreases n - j,
            {
                if j == n {
                    break;
                }
                let c = *slice_index_get(contents, j);
                if c == 32 || c == 9 || c == 10 || c == 12 || c == 13 {
                    break;
                }
                j = j + 1;
            }
            assert(!is_ws(contents@[i as int]));
            assert(j > i);
            proof {
                lemma_token_step(contents@, i as int, j as int);
            }
            let ghost tok = contents@.subrange(i as int, j as int);
            let ghost rest = tokens(contents@.skip(j as int));
            proof {
                assert((seq![tok] + rest)[0] == tok);
                assert((seq![tok] + rest).skip(1) =~= rest);
            }
            // the first `=` inside the token, if any, is at k
            let mut k: usize = i;
            loop
                invariant
                    i <= k <= j <= n,
                    n == contents@.len(),
                    forall|m: int| i <= m < k ==> contents@[m] != 61,
                ensures
                    i <= k <= j,
                    k == j || contents@[k as int] == 61,
                    forall|m: int| i <= m < k ==> contents@[m] != 61,
                decreases j - k,
            {
                if k == j {
                    break;
                }
                if *slice_index_get(contents, k) == 61 {
                    break;
                }
                k = k + 1;
            }
            proof {
                assert(forall|m: int| 0 <= m < k - i ==> tok[m] == contents@[m + i]);
                assert(k < j ==> tok[k - i] == contents@[k as int]);
                lemma_eq_pos_from_scan(tok, k - i);
            }
            if k < j {
                let key_part = slice_subrange(contents, i, k);
                if bytes_eq(key_part, want_param) {
                    proof {
                        assert(tok.take(k - i) =~= contents@.subrange(i as int, k as int));
                        assert(token_matches(tok, want_param@));
                        assert(token_value(tok) =~= contents@.subrange(k as int + 1, j as int));
                    }
                    let val = slice_to_vec(slice_subrange(contents, k + 1, j));
                    return Some(val);
                }
                proof {
                    assert(tok.take(k - i) =~= contents@.subrange(i as int, k as int));
                    assert(!token_matches(tok, want_param@));
                }
            } else {
                proof {
                    assert(eq_pos(tok) == tok.len());
                    assert(!token_matches(tok, want_param@));
                }
            }
            i = j;
        }
    }
    proof {
        assert(contents@.skip(n as int) =~= Seq::<u8>::empty());
    }
    None
}

/// The bytes of the token key `"init"`.
pub open spec fn init_key() -> Seq<u8> {
    seq![105u8, 110u8, 105u8, 116u8]
}

/// The bytes of the default init path, `"/init"`.
pub open spec fn default_init() -> Seq<u8> {
    seq![47u8, 105u8, 110u8, 105u8, 116u8]
}

/// The bytes of the token key `"rootfstype"`.
pub open spec fn rootfstype_key() -> Seq<u8> {
    seq![114u8, 111u8, 111u8, 116u8, 102u8, 115u8, 116u8, 121u8, 112u8, 101u8]
}

/// The bytes of the default root filesystem type, `"erofs"`.
pub open spec fn default_rootfstype() -> Seq<u8> {
    seq![101u8, 114u8, 111u8, 102u8, 115u8]
}

/// The init path a command line selects: the value of its `init` token,
/// or `/init` when the token is absent.
pub open spec fn boot_init(c: Seq<u8>) -> Seq<u8> {
    match cmdline_value(c, init_key()) {
        Some(v) => v,
        None => default_init(),
    }
}

/// The root filesystem type a command line selects: the value of its
/// `rootfstype` token, or `erofs` when the token is absent.
pub open spec fn boot_fstype(c: Seq<u8>) -> Seq<u8> {
    match cmdline_value(c, rootfstype_key()) {
        Some(v) => v,
        None => default_rootfstype(),
    }
}

/// Resolves the two recognized command-line tokens against their
/// defaults: the init path and the root filesystem type.
pub fn resolve_boot_params(cmdline: &[u8]) -> (r: (Vec<u8>, Vec<u8>))
    ensures
        r.0@ == boot_init(cmdline@),
        r.1@ == boot_fstype(cmdline@),
{
    let ikey: Vec<u8> = vec![105u8, 110, 105, 116];
    assert(ikey@ =~= init_key());
    let init = match find_cmdline(cmdline, ikey.as_slice()) {
        Some(v) => v,
        None => {
            let d: Vec<u8> = vec![47u8, 105, 110, 105, 116];
            assert(d@ =~= default_init());
            d
        },
    };
    let fkey: Vec<u8> = vec![114u8, 111, 111, 116, 102, 115, 116, 121, 112, 101];
    assert(fkey@ =~= rootfstype_key());
    let fstype = match find_cmdline(cmdline, fkey.as_slice()) {
        Some(v) => v,
        None => {
            let d: Vec<u8> = vec![101u8, 114, 111, 102, 115];
            assert(d@ =~= default_rootfstype());
            d
        },
    };
    (init, fstype)
}

} // verus!
