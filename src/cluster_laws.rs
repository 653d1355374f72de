//! What holds of the segmentation of every text: the clusters concatenate back to the
//! text, and CR LF, Hangul syllables and flag pairs are never split.
use vstd::prelude::*;

use crate::grapheme_clusters::{
    cluster_end,
    cluster_ends,
    clusters,
    clusters_from,
    first_cluster,
    gp_of,
    is_boundary,
    lemma_cluster_end_advances,
    lemma_scan_bounds,
    scan,
    start_state,
    step,
    Break,
    ClusterMachineState,
    CONTROL,
    HANGUL_L,
    HANGUL_LV,
    HANGUL_LVT,
    HANGUL_T,
    HANGUL_V,
    REGIONAL_INDICATOR,
};
use crate::grapheme_data::{GP_PAGES, GP_PAGE_0, GP_PLANE_0, GP_TABLE};

verus! {

/// The clusters from position `p` on concatenate to the text from `p` on.
proof fn lemma_flatten_from(s: Seq<char>, p: int)
    requires
        0 <= p <= s.len(),
    ensures
        clusters_from(s, p).flatten() == s.subrange(p, s.len() as int),
    decreases s.len() - p,
{
    if p < s.len() {
        lemma_cluster_end_advances(s, p);
        let e = cluster_end(s, p);
        lemma_flatten_from(s, e);
        let cs = clusters_from(s, p);
        assert(cs.drop_first() =~= clusters_from(s, e));
        assert(s.subrange(p, e) + s.subrange(e, s.len() as int) =~= s.subrange(p, s.len() as int));
    } else {
        assert(s.subrange(p, p) =~= Seq::<char>::empty());
    }
}

/// Concatenating the clusters of a text, in order, gives back the text: no character is
/// lost, repeated or moved.
pub proof fn lemma_clusters_concat(s: Seq<char>)
    ensures
        clusters(s).flatten() == s,
{
    lemma_flatten_from(s, 0);
    assert(s.subrange(0, s.len() as int) =~= s);
}

/// The clusters from position `p` on lie between consecutive cluster ends: the `j`-th
/// runs from the end before it (or `p`) to the `j`-th end.
proof fn lemma_clusters_between_ends(s: Seq<char>, p: int)
    requires
        0 <= p <= s.len(),
    ensures
        clusters_from(s, p).len() == cluster_ends(s, p).len(),
        forall|j: int|
            0 <= j < clusters_from(s, p).len() ==> #[trigger] clusters_from(s, p)[j]
                == s.subrange(
                if j == 0 {
                    p
                } else {
                    cluster_ends(s, p)[j - 1]
                },
                cluster_ends(s, p)[j],
            ),
    decreases s.len() - p,
{
    if p < s.len() {
        lemma_cluster_end_advances(s, p);
        let e = cluster_end(s, p);
        lemma_clusters_between_ends(s, e);
        let cs = clusters_from(s, p);
        let es = cluster_ends(s, p);
        assert forall|j: int| 0 <= j < cs.len() implies #[trigger] cs[j] == s.subrange(
            if j == 0 {
                p
            } else {
                es[j - 1]
            },
            es[j],
        ) by {
            if j > 0 {
                assert(cs[j] == clusters_from(s, e)[j - 1]);
                assert(es[j] == cluster_ends(s, e)[j - 1]);
                if j > 1 {
                    assert(es[j - 1] == cluster_ends(s, e)[j - 2]);
                }
            }
        }
    }
}

/// The clusters that a text is cut into meet exactly at its boundaries: the `j`-th
/// cluster runs from the `j - 1`-th boundary (or the start) to the `j`-th.
pub proof fn lemma_clusters_meet_at_boundaries(s: Seq<char>)
    ensures
        clusters(s).len() == cluster_ends(s, 0).len(),
        forall|j: int|
            0 <= j < clusters(s).len() ==> #[trigger] clusters(s)[j] == s.subrange(
                if j == 0 {
                    0
                } else {
                    cluster_ends(s, 0)[j - 1]
                },
                cluster_ends(s, 0)[j],
            ),
{
    lemma_clusters_between_ends(s, 0);
}

/// A scan reads only forward: dropping the first `k` characters shifts its end by `k`.
proof fn lemma_scan_shift(s: Seq<char>, st: ClusterMachineState, i: int, k: int)
    requires
        0 <= k <= i <= s.len(),
    ensures
        scan(s.skip(k), st, i - k) == scan(s, st, i) - k,
    decreases s.len() - i,
{
    let t = s.skip(k);
    if i < s.len() {
        assert(t[i - k] == s[i]);
        let u = step(st, s[i], gp_of(s[i]));
        if u.1 == Break::Continue {
            lemma_scan_shift(s, u.0, i + 1, k);
        }
    }
}

/// The cursor and the iterator cut a text alike: the cluster that the cursor reads from
/// position `p` on is the one that the iterator hands out at `p`.
pub proof fn lemma_cursor_matches_iterator(s: Seq<char>, p: int)
    requires
        0 <= p < s.len(),
    ensures
        first_cluster(s.skip(p)) == clusters_from(s, p)[0],
{
    lemma_scan_shift(s, ClusterMachineState::Start, p, p);
    lemma_cluster_end_advances(s, p);
    assert(first_cluster(s.skip(p)) =~= s.subrange(p, cluster_end(s, p)));
}

/// CR and LF are control characters in the property table.
pub proof fn lemma_cr_lf_are_control()
    ensures
        gp_of('\r') == CONTROL,
        gp_of('\n') == CONTROL,
{
    reveal(GP_TABLE);
    reveal(GP_PLANE_0);
    reveal(GP_PAGES);
    reveal(GP_PAGE_0);
    assert((13u32 >> 16u32) == 0u32 && ((13u32 >> 8u32) & 0xffu32) == 0u32 && (13u32 & 0xffu32)
        == 13u32) by (bit_vector);
    assert((10u32 >> 16u32) == 0u32 && ((10u32 >> 8u32) & 0xffu32) == 0u32 && (10u32 & 0xffu32)
        == 10u32) by (bit_vector);
}

/// The conditions under which no cluster ends at position `k`: `pre` holds of every
/// state in which the machine can reach `s[k - 1]`, the machine does not end the cluster
/// after `s[k - 1]`, `mid` holds of every state it can then reach `s[k]` in, and from
/// there it does not end the cluster before `s[k]`.
pub open spec fn no_cut_conditions(
    s: Seq<char>,
    k: int,
    pre: spec_fn(ClusterMachineState) -> bool,
    mid: spec_fn(ClusterMachineState) -> bool,
) -> bool {
    &&& 0 < k < s.len()
    &&& pre(ClusterMachineState::Start)
    &&& k >= 2 ==> forall|st: ClusterMachineState| #[trigger]
        step(st, s[k - 2], gp_of(s[k - 2])).1 == Break::Continue ==> pre(
            step(st, s[k - 2], gp_of(s[k - 2])).0,
        )
    &&& forall|st: ClusterMachineState| #[trigger]
        pre(st) ==> step(st, s[k - 1], gp_of(s[k - 1])).1 != Break::After
    &&& forall|st: ClusterMachineState| #[trigger]
        pre(st) && step(st, s[k - 1], gp_of(s[k - 1])).1 == Break::Continue ==> mid(
            step(st, s[k - 1], gp_of(s[k - 1])).0,
        )
    &&& forall|st: ClusterMachineState| #[trigger]
        mid(st) ==> step(st, s[k], gp_of(s[k])).1 != Break::Before
}

/// A scan that reaches `s[j]` at or before `s[k - 1]` does not end at `k`.
proof fn lemma_scan_misses(
    s: Seq<char>,
    k: int,
    pre: spec_fn(ClusterMachineState) -> bool,
    mid: spec_fn(ClusterMachineState) -> bool,
    st: ClusterMachineState,
    j: int,
)
    requires
        no_cut_conditions(s, k, pre, mid),
        0 <= j <= k - 1,
        j == k - 1 ==> pre(st),
    ensures
        scan(s, st, j) != k,
    decreases k - j,
{
    let t = step(st, s[j], gp_of(s[j]));
    if j < k - 1 {
        if t.1 == Break::Continue {
            if j + 1 == k - 1 {
                assert(step(st, s[k - 2], gp_of(s[k - 2])).1 == Break::Continue);
                assert(pre(t.0));
            }
            lemma_scan_misses(s, k, pre, mid, t.0, j + 1);
        }
    } else {
        assert(pre(st));
        if t.1 == Break::Continue {
            assert(mid(t.0));
            let u = step(t.0, s[k], gp_of(s[k]));
            assert(u.1 != Break::Before);
            if u.1 == Break::Continue {
                lemma_scan_bounds(s, u.0, k + 1);
            }
            assert(scan(s, t.0, k) > k);
        }
    }
}

/// Every cluster end from position `p` on lies after `p`.
proof fn lemma_ends_after(s: Seq<char>, p: int)
    requires
        0 <= p,
    ensures
        forall|i: int| 0 <= i < cluster_ends(s, p).len() ==> cluster_ends(s, p)[i] > p,
    decreases s.len() - p,
{
    if p < s.len() {
        let e = cluster_end(s, p);
        if p < e <= s.len() {
            lemma_ends_after(s, e);
            let es = cluster_ends(s, p);
            assert forall|i: int| 0 <= i < es.len() implies es[i] > p by {
                if i > 0 {
                    assert(es[i] == cluster_ends(s, e)[i - 1]);
                }
            }
        }
    }
}

/// No cluster end from position `p` on, for `p` before `k`, is `k`.
proof fn lemma_ends_miss(
    s: Seq<char>,
    k: int,
    pre: spec_fn(ClusterMachineState) -> bool,
    mid: spec_fn(ClusterMachineState) -> bool,
    p: int,
)
    requires
        no_cut_conditions(s, k, pre, mid),
        0 <= p <= k - 1,
    ensures
        forall|i: int| 0 <= i < cluster_ends(s, p).len() ==> cluster_ends(s, p)[i] != k,
    decreases s.len() - p,
{
    lemma_cluster_end_advances(s, p);
    let e = cluster_end(s, p);
    lemma_scan_misses(s, k, pre, mid, ClusterMachineState::Start, p);
    let es = cluster_ends(s, p);
    if e <= k - 1 {
        lemma_ends_miss(s, k, pre, mid, e);
    } else {
        lemma_ends_after(s, e);
    }
    assert forall|i: int| 0 <= i < es.len() implies es[i] != k by {
        if i > 0 {
            assert(es[i] == cluster_ends(s, e)[i - 1]);
        }
    }
}

/// Under `no_cut_conditions`, position `k` is no cluster boundary.
pub proof fn lemma_no_boundary(
    s: Seq<char>,
    k: int,
    pre: spec_fn(ClusterMachineState) -> bool,
    mid: spec_fn(ClusterMachineState) -> bool,
)
    requires
        no_cut_conditions(s, k, pre, mid),
    ensures
        !is_boundary(s, k),
{
    lemma_ends_miss(s, k, pre, mid, 0);
}

/// No cluster boundary separates a CR from the LF right after it.
pub proof fn lemma_crlf_kept(s: Seq<char>)
    ensures
        forall|k: int|
            0 < k < s.len() && s[k - 1] == '\r' && s[k] == '\n' ==> !is_boundary(s, k),
{
    lemma_cr_lf_are_control();
    assert forall|k: int| 0 < k < s.len() && s[k - 1] == '\r' && s[k] == '\n' implies !is_boundary(
        s,
        k,
    ) by {
        let pre = |st: ClusterMachineState| true;
        let mid = |st: ClusterMachineState| st == ClusterMachineState::CrLf;
        lemma_no_boundary(s, k, pre, mid);
    }
}

/// The Hangul pairs that rules GB6 to GB8 of UAX #29 keep together: L before L, V, LV or
/// LVT; V or LV before V or T; LVT or T before T.
pub open spec fn hangul_joins(a: u8, b: u8) -> bool {
    ||| a == HANGUL_L && (b == HANGUL_L || b == HANGUL_V || b == HANGUL_LV || b == HANGUL_LVT)
    ||| (a == HANGUL_V || a == HANGUL_LV) && (b == HANGUL_V || b == HANGUL_T)
    ||| (a == HANGUL_LVT || a == HANGUL_T) && b == HANGUL_T
}

/// The Hangul codes are none of the codes that always extend a cluster.
proof fn lemma_hangul_not_continuation()
    ensures
        !(0x08u8 & 0x0cu8 == 0),
        !(0x09u8 & 0x0cu8 == 0),
        !(0x0cu8 & 0x0cu8 == 0),
        !(0x0du8 & 0x0cu8 == 0),
        !(0x0eu8 & 0x0cu8 == 0),
        !(0x07u8 & 0x0cu8 == 0),
{
    assert(!(0x08u8 & 0x0cu8 == 0) && !(0x09u8 & 0x0cu8 == 0) && !(0x0cu8 & 0x0cu8 == 0) && !(
    0x0du8 & 0x0cu8 == 0) && !(0x0eu8 & 0x0cu8 == 0) && !(0x07u8 & 0x0cu8 == 0)) by (bit_vector);
}

/// No cluster boundary separates two Hangul characters that GB6 to GB8 keep together.
pub proof fn lemma_hangul_pair_kept(s: Seq<char>, k: int)
    requires
        0 < k < s.len(),
        hangul_joins(gp_of(s[k - 1]), gp_of(s[k])),
    ensures
        !is_boundary(s, k),
{
    lemma_cr_lf_are_control();
    lemma_hangul_not_continuation();
    let a = gp_of(s[k - 1]);
    let pre = |st: ClusterMachineState| true;
    let mid = |st: ClusterMachineState| st == start_state(a);
    lemma_no_boundary(s, k, pre, mid);
}

/// `s[a..b]` is a run of Hangul characters of the form L* (V | LV) T*, or L+.
pub open spec fn is_hangul_syllable_run(s: Seq<char>, a: int, b: int) -> bool {
    &&& 0 <= a < b <= s.len()
    &&& {
        ||| forall|j: int| a <= j < b ==> gp_of(#[trigger] s[j]) == HANGUL_L
        ||| exists|m: int|
            a <= m < b && (forall|j: int| a <= j < m ==> gp_of(#[trigger] s[j]) == HANGUL_L) && (
            gp_of(s[m]) == HANGUL_V || gp_of(s[m]) == HANGUL_LV) && (forall|j: int|
                m < j < b ==> gp_of(#[trigger] s[j]) == HANGUL_T)
    }
}

/// A Hangul syllable run L* (V | LV) T*, or L+, lies within one cluster: no boundary falls
/// strictly inside it.
pub proof fn lemma_hangul_run_kept(s: Seq<char>, a: int, b: int)
    requires
        is_hangul_syllable_run(s, a, b),
    ensures
        forall|k: int| a < k < b ==> !is_boundary(s, k),
{
    assert forall|k: int| a < k < b implies !is_boundary(s, k) by {
        if forall|j: int| a <= j < b ==> gp_of(#[trigger] s[j]) == HANGUL_L {
            assert(gp_of(s[k - 1]) == HANGUL_L);
            assert(gp_of(s[k]) == HANGUL_L);
        } else {
            let m = choose|m: int|
                a <= m < b && (forall|j: int| a <= j < m ==> gp_of(#[trigger] s[j]) == HANGUL_L)
                    && (gp_of(s[m]) == HANGUL_V || gp_of(s[m]) == HANGUL_LV) && (forall|j: int|
                    m < j < b ==> gp_of(#[trigger] s[j]) == HANGUL_T);
            if k < m {
                assert(gp_of(s[k - 1]) == HANGUL_L);
                assert(gp_of(s[k]) == HANGUL_L);
            } else if k == m {
                assert(gp_of(s[k - 1]) == HANGUL_L);
            } else if k == m + 1 {
                assert(gp_of(s[k]) == HANGUL_T);
            } else {
                assert(gp_of(s[k - 1]) == HANGUL_T);
                assert(gp_of(s[k]) == HANGUL_T);
            }
        }
        lemma_hangul_pair_kept(s, k);
    }
}

/// Two Regional_Indicator characters that are not preceded by a third form one flag: no
/// cluster boundary falls between them.
pub proof fn lemma_flag_pair_kept(s: Seq<char>, i: int)
    requires
        0 <= i,
        i + 1 < s.len(),
        gp_of(s[i]) == REGIONAL_INDICATOR,
        gp_of(s[i + 1]) == REGIONAL_INDICATOR,
        i > 0 ==> gp_of(s[i - 1]) != REGIONAL_INDICATOR,
    ensures
        !is_boundary(s, i + 1),
{
    lemma_cr_lf_are_control();
    lemma_hangul_not_continuation();
    let pre = |st: ClusterMachineState| st != ClusterMachineState::Flag;
    let mid = |st: ClusterMachineState| st == ClusterMachineState::Flag;
    lemma_no_boundary(s, i + 1, pre, mid);
}

} // verus!
