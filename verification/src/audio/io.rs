//! Audio device lists: the ALSA alias priority, the merge of aliases that
//! share a device name, and the choice of device identifier to look up.
use vstd::prelude::*;

use crate::errors::AppError;
use crate::text::{matches_at, occurs_at, segment_is, segment_starts_with};

verus! {

/// `s` without the leading `prefix`, when it begins with it.
pub open spec fn strip_prefix_seq(s: Seq<char>, prefix: Seq<char>) -> Seq<char> {
    if occurs_at(s, prefix, 0) {
        s.subrange(prefix.len() as int, s.len() as int)
    } else {
        s
    }
}

/// The characters of `s` before its first `':'` (all of `s` when it has none).
pub open spec fn first_segment(s: Seq<char>) -> Seq<char>
    decreases s.len(),
{
    if s.len() == 0 || s[0] == ':' {
        Seq::<char>::empty()
    } else {
        seq![s[0]] + first_segment(s.drop_first())
    }
}

/// How strongly an ALSA device identifier is preferred among aliases of one
/// device: lower is better.
pub open spec fn alsa_priority(id: Seq<char>) -> u8 {
    let p = first_segment(strip_prefix_seq(id, "alsa:"@));
    if p == "pipewire"@ {
        0
    } else if p == "default"@ || p == "sysdefault"@ {
        1
    } else if p == "plughw"@ {
        2
    } else if p == "hw"@ {
        3
    } else if p == "front"@ {
        4
    } else if p == "iec958"@ {
        5
    } else if occurs_at(p, "surround"@, 0) {
        6
    } else {
        1
    }
}

proof fn lemma_first_segment(s: Seq<char>, i: int)
    requires
        0 <= i <= s.len(),
        forall|j: int| 0 <= j < i ==> s[j] != ':',
        i == s.len() || s[i] == ':',
    ensures
        first_segment(s) == s.subrange(0, i),
    decreases i,
{
    if i == 0 {
        assert(s.subrange(0, 0) =~= Seq::<char>::empty());
    } else {
        let t = s.drop_first();
        assert forall|j: int| 0 <= j < i - 1 implies t[j] != ':' by {
            assert(t[j] == s[j + 1]);
        }
        if i < s.len() {
            assert(t[i - 1] == s[i]);
        }
        lemma_first_segment(t, i - 1);
        assert(s.subrange(0, i) =~= seq![s[0]] + t.subrange(0, i - 1));
    }
}

/// The priority of an ALSA device identifier (see `alsa_priority`).
pub fn device_priority(id: &str) -> (p: u8)
    ensures
        p == alsa_priority(id@),
{
    let n = id.unicode_len();
    let start: usize = if matches_at(id, 0, "alsa:") {
        "alsa:".unicode_len()
    } else {
        0
    };
    let ghost raw = strip_prefix_seq(id@, "alsa:"@);
    assert(raw =~= id@.subrange(start as int, n as int));
    let mut end: usize = start;
    while end < n && id.get_char(end) != ':'
        invariant
            n == id@.len(),
            start <= end <= n,
            forall|j: int| start <= j < end ==> id@[j] != ':',
        decreases n - end,
    {
        end += 1;
    }
    proof {
        assert forall|j: int| 0 <= j < end - start implies raw[j] != ':' by {
            assert(raw[j] == id@[start + j]);
        }
        if end < n {
            assert(raw[end - start] == id@[end as int]);
        }
        lemma_first_segment(raw, end - start);
        assert(raw.subrange(0, end - start) =~= id@.subrange(start as int, end as int));
    }
    if segment_is(id, start, end, "pipewire") {
        0
    } else if segment_is(id, start, end, "default") || segment_is(id, start, end, "sysdefault") {
        1
    } else if segment_is(id, start, end, "plughw") {
        2
    } else if segment_is(id, start, end, "hw") {
        3
    } else if segment_is(id, start, end, "front") {
        4
    } else if segment_is(id, start, end, "iec958") {
        5
    } else if segment_starts_with(id, start, end, "surround") {
        6
    } else {
        1
    }
}

/// The leading `alsa:` is stripped once: an identifier with that prefix has
/// the priority of the rest.
pub proof fn law_alsa_prefix_stripped(x: Seq<char>)
    requires
        !occurs_at(x, "alsa:"@, 0),
    ensures
        alsa_priority("alsa:"@ + x) == alsa_priority(x),
{
    let id = "alsa:"@ + x;
    assert(id.subrange(0, "alsa:"@.len() as int) =~= "alsa:"@);
    assert(id.subrange("alsa:"@.len() as int, id.len() as int) =~= x);
}

proof fn lemma_segment_of(seg: Seq<char>, t: Seq<char>)
    requires
        forall|i: int| 0 <= i < seg.len() ==> seg[i] != ':',
        !occurs_at(seg, "alsa:"@, 0),
        !occurs_at(seg + seq![':'] + t, "alsa:"@, 0),
    ensures
        first_segment(strip_prefix_seq(seg + seq![':'] + t, "alsa:"@)) == seg,
        first_segment(strip_prefix_seq(seg, "alsa:"@)) == seg,
{
    let id = seg + seq![':'] + t;
    assert forall|i: int| 0 <= i < seg.len() implies id[i] != ':' by {
        assert(id[i] == seg[i]);
    }
    assert(id[seg.len() as int] == ':');
    lemma_first_segment(id, seg.len() as int);
    assert(id.subrange(0, seg.len() as int) =~= seg);
    lemma_first_segment(seg, seg.len() as int);
    assert(seg.subrange(0, seg.len() as int) =~= seg);
}

proof fn lemma_not_alsa(seg: Seq<char>, t: Seq<char>)
    requires
        seg.len() > 0,
        seg[0] != 'a',
    ensures
        !occurs_at(seg, "alsa:"@, 0),
        !occurs_at(seg + seq![':'] + t, "alsa:"@, 0),
{
    reveal_strlit("alsa:");
    if occurs_at(seg, "alsa:"@, 0) {
        assert(seg.subrange(0, 5)[0] == seg[0]);
    }
    let id = seg + seq![':'] + t;
    if occurs_at(id, "alsa:"@, 0) {
        assert(id.subrange(0, 5)[0] == id[0]);
        assert(id[0] == seg[0]);
    }
}

/// The priority table of ALSA identifiers, for any rest `t` after the
/// first `:`: pipewire 0, default and sysdefault 1, plughw 2, hw 3, front 4,
/// iec958 5; the same names without a rest have the same priorities.
pub proof fn law_alsa_priority_table(t: Seq<char>)
    ensures
        alsa_priority("pipewire:"@ + t) == 0,
        alsa_priority("default:"@ + t) == 1,
        alsa_priority("sysdefault:"@ + t) == 1,
        alsa_priority("plughw:"@ + t) == 2,
        alsa_priority("hw:"@ + t) == 3,
        alsa_priority("front:"@ + t) == 4,
        alsa_priority("iec958:"@ + t) == 5,
        alsa_priority("pipewire"@) == 0,
        alsa_priority("default"@) == 1,
        alsa_priority("sysdefault"@) == 1,
        alsa_priority("plughw"@) == 2,
        alsa_priority("hw"@) == 3,
        alsa_priority("front"@) == 4,
        alsa_priority("iec958"@) == 5,
{
    reveal_strlit("pipewire");
    reveal_strlit("default");
    reveal_strlit("sysdefault");
    reveal_strlit("plughw");
    reveal_strlit("hw");
    reveal_strlit("front");
    reveal_strlit("iec958");
    reveal_strlit("surround");
    reveal_strlit("pipewire:");
    reveal_strlit("default:");
    reveal_strlit("sysdefault:");
    reveal_strlit("plughw:");
    reveal_strlit("hw:");
    reveal_strlit("front:");
    reveal_strlit("iec958:");
    let names = seq!["pipewire"@, "default"@, "sysdefault"@, "plughw"@, "hw"@, "front"@, "iec958"@];
    let colon = seq!["pipewire:"@, "default:"@, "sysdefault:"@, "plughw:"@, "hw:"@, "front:"@, "iec958:"@];
    assert forall|k: int| 0 <= k < 7 implies {
        &&& first_segment(strip_prefix_seq(#[trigger] names[k], "alsa:"@)) == names[k]
        &&& first_segment(strip_prefix_seq(colon[k] + t, "alsa:"@)) == names[k]
    } by {
        let seg = names[k];
        assert(colon[k] =~= seg + seq![':']);
        assert(colon[k] + t =~= seg + seq![':'] + t);
        lemma_not_alsa(seg, t);
        lemma_segment_of(seg, t);
    }
    assert(names[0] == "pipewire"@);
    assert(names[1] == "default"@);
    assert(names[2] == "sysdefault"@);
    assert(names[3] == "plughw"@);
    assert(names[4] == "hw"@);
    assert(names[5] == "front"@);
    assert(names[6] == "iec958"@);
}

/// Every `surround...` identifier (whatever follows up to the first `:`,
/// and after it) has priority 6, the worst of the named ones.
pub proof fn law_alsa_priority_surround(s: Seq<char>, t: Seq<char>)
    requires
        forall|i: int| 0 <= i < s.len() ==> s[i] != ':',
    ensures
        alsa_priority("surround"@ + s) == 6,
        alsa_priority("surround"@ + s + seq![':'] + t) == 6,
{
    reveal_strlit("pipewire");
    reveal_strlit("default");
    reveal_strlit("sysdefault");
    reveal_strlit("plughw");
    reveal_strlit("hw");
    reveal_strlit("front");
    reveal_strlit("iec958");
    reveal_strlit("surround");
    let seg = "surround"@ + s;
    assert(seg[0] == 's');
    assert(seg[1] == 'u');
    assert(seg.len() >= 8);
    assert forall|i: int| 0 <= i < seg.len() implies seg[i] != ':' by {
        if i >= 8 {
            assert(seg[i] == s[i - 8]);
        }
    }
    lemma_not_alsa(seg, t);
    lemma_segment_of(seg, t);
    assert(seg.subrange(0, 8) =~= "surround"@);
    assert("surround"@ + s + seq![':'] + t =~= seg + seq![':'] + t);
    assert(seg != "sysdefault"@) by {
        if seg.len() == 10 {
            assert("sysdefault"@[1] == 'y');
        }
    }
}

/// With the `alsa:` prefix, the `plughw` alias of a device is preferred to
/// its `hw` alias, whatever follows them.
pub proof fn law_alsa_plughw_before_hw(t: Seq<char>, u: Seq<char>)
    ensures
        alsa_priority("alsa:plughw:"@ + t) == 2,
        alsa_priority("alsa:hw:"@ + u) == 3,
        alsa_priority("alsa:plughw:"@ + t) < alsa_priority("alsa:hw:"@ + u),
{
    reveal_strlit("alsa:plughw:");
    reveal_strlit("alsa:hw:");
    reveal_strlit("alsa:");
    reveal_strlit("plughw:");
    reveal_strlit("hw:");
    reveal_strlit("plughw");
    reveal_strlit("hw");
    law_alsa_priority_table(t);
    law_alsa_priority_table(u);
    let x = "plughw:"@ + t;
    let y = "hw:"@ + u;
    assert("alsa:plughw:"@ + t =~= "alsa:"@ + x);
    assert("alsa:hw:"@ + u =~= "alsa:"@ + y);
    assert("plughw:"@ =~= "plughw"@ + seq![':']);
    assert("hw:"@ =~= "hw"@ + seq![':']);
    assert(x =~= "plughw"@ + seq![':'] + t);
    assert(y =~= "hw"@ + seq![':'] + u);
    lemma_not_alsa("plughw"@, t);
    lemma_not_alsa("hw"@, u);
    law_alsa_prefix_stripped(x);
    law_alsa_prefix_stripped(y);
}

/// A device entry `(name, id)` as character sequences.
pub open spec fn entry_view(e: (String, String)) -> (Seq<char>, Seq<char>) {
    (e.0@, e.1@)
}

/// A device list as character sequences.
pub open spec fn entries_view(v: Seq<(String, String)>) -> Seq<(Seq<char>, Seq<char>)> {
    v.map_values(|e: (String, String)| entry_view(e))
}

/// The names of a device list, in order.
pub open spec fn names_of(s: Seq<(Seq<char>, Seq<char>)>) -> Seq<Seq<char>> {
    s.map_values(|e: (Seq<char>, Seq<char>)| e.0)
}

/// The device names of `s`, each once, in the order in which they first appear.
pub open spec fn distinct_names(s: Seq<(Seq<char>, Seq<char>)>) -> Seq<Seq<char>>
    decreases s.len(),
{
    if s.len() == 0 {
        Seq::<Seq<char>>::empty()
    } else {
        let d = distinct_names(s.drop_last());
        if d.contains(s.last().0) {
            d
        } else {
            d.push(s.last().0)
        }
    }
}

/// Entry `j` of `s` is the one kept for its name: no entry of that name has a
/// better priority, and every earlier entry of that name has a worse one.
pub open spec fn preferred_entry(s: Seq<(Seq<char>, Seq<char>)>, j: int) -> bool {
    &&& 0 <= j < s.len()
    &&& forall|i: int|
        0 <= i < s.len() && #[trigger] s[i].0 == s[j].0 ==> alsa_priority(s[j].1) <= alsa_priority(
            s[i].1,
        )
    &&& forall|i: int|
        0 <= i < j && #[trigger] s[i].0 == s[j].0 ==> alsa_priority(s[i].1) > alsa_priority(
            s[j].1,
        )
}

/// `r` is `s` with its aliases merged: one entry per device name, in order of
/// first appearance, each being the preferred entry of `s` for that name.
pub open spec fn merged_aliases(
    s: Seq<(Seq<char>, Seq<char>)>,
    r: Seq<(Seq<char>, Seq<char>)>,
) -> bool {
    &&& names_of(r) == distinct_names(s)
    &&& forall|k: int| 0 <= k < r.len() ==> #[trigger] kept_entry(s, r, k)
}

/// Entry `k` of `r` is a preferred entry of `s`.
pub open spec fn kept_entry(
    s: Seq<(Seq<char>, Seq<char>)>,
    r: Seq<(Seq<char>, Seq<char>)>,
    k: int,
) -> bool {
    exists|j: int| #[trigger] preferred_entry(s, j) && s[j] == r[k]
}

/// A name is among the distinct names exactly when some entry carries it.
pub proof fn lemma_distinct_names_contains(s: Seq<(Seq<char>, Seq<char>)>, n: Seq<char>)
    ensures
        distinct_names(s).contains(n) <==> exists|j: int| 0 <= j < s.len() && #[trigger] s[j].0 == n,
    decreases s.len(),
{
    if s.len() > 0 {
        let t = s.drop_last();
        lemma_distinct_names_contains(t, n);
        let d = distinct_names(t);
        if distinct_names(s).contains(n) {
            if d.contains(n) {
                let j = choose|j: int| 0 <= j < t.len() && #[trigger] t[j].0 == n;
                assert(s[j].0 == n);
            } else {
                assert(distinct_names(s) == d.push(s.last().0));
                let k = choose|k: int| 0 <= k < distinct_names(s).len() && distinct_names(s)[k] == n;
                assert(k == d.len());
                assert(s[s.len() - 1].0 == n);
            }
        }
        if exists|j: int| 0 <= j < s.len() && #[trigger] s[j].0 == n {
            let j = choose|j: int| 0 <= j < s.len() && #[trigger] s[j].0 == n;
            if j < s.len() - 1 {
                assert(t[j].0 == n);
                assert(d.contains(n));
                if !d.contains(s.last().0) {
                    let k = choose|k: int| 0 <= k < d.len() && d[k] == n;
                    assert(d.push(s.last().0)[k] == n);
                }
            } else {
                if !d.contains(s.last().0) {
                    assert(d.push(s.last().0)[d.len() as int] == n);
                }
            }
        }
    }
}

/// The distinct names hold no name twice.
pub proof fn lemma_distinct_names_no_duplicates(s: Seq<(Seq<char>, Seq<char>)>)
    ensures
        distinct_names(s).no_duplicates(),
    decreases s.len(),
{
    if s.len() > 0 {
        lemma_distinct_names_no_duplicates(s.drop_last());
    }
}

proof fn lemma_distinct_names_of_distinct(r: Seq<(Seq<char>, Seq<char>)>)
    requires
        names_of(r).no_duplicates(),
    ensures
        distinct_names(r) == names_of(r),
    decreases r.len(),
{
    if r.len() > 0 {
        let t = r.drop_last();
        assert(names_of(t) =~= names_of(r).drop_last());
        assert forall|a: int, b: int|
            0 <= a < names_of(t).len() && 0 <= b < names_of(t).len() && a != b implies names_of(t)[a]
            != names_of(t)[b] by {
            assert(names_of(r)[a] != names_of(r)[b]);
        }
        lemma_distinct_names_of_distinct(t);
        if names_of(t).contains(r.last().0) {
            let q = choose|q: int| 0 <= q < names_of(t).len() && names_of(t)[q] == r.last().0;
            assert(names_of(r)[q] == names_of(r)[r.len() - 1]);
        }
        assert(names_of(r) =~= names_of(t).push(r.last().0));
    }
}

/// Merging the aliases of a list that is already merged changes nothing.
pub proof fn law_merge_idempotent(
    s: Seq<(Seq<char>, Seq<char>)>,
    r: Seq<(Seq<char>, Seq<char>)>,
    r2: Seq<(Seq<char>, Seq<char>)>,
)
    requires
        merged_aliases(s, r),
        merged_aliases(r, r2),
    ensures
        r2 == r,
{
    lemma_distinct_names_no_duplicates(s);
    lemma_distinct_names_of_distinct(r);
    assert(names_of(r2).len() == r2.len());
    assert forall|k: int| 0 <= k < r.len() implies r2[k] == r[k] by {
        assert(names_of(r2)[k] == r2[k].0);
        assert(names_of(r)[k] == r[k].0);
        assert(kept_entry(r, r2, k));
        let j = choose|j: int| #[trigger] preferred_entry(r, j) && r[j] == r2[k];
        assert(names_of(r)[j] == r[j].0);
        if j != k {
            assert(names_of(r)[j] != names_of(r)[k]);
        }
    }
    assert(r2 =~= r);
}

/// Loop state of the merge: `bv` merges the prefix `p`, and `w[k]` is the
/// entry of `p` that `bv[k]` keeps.
spec fn merge_state(
    p: Seq<(Seq<char>, Seq<char>)>,
    bv: Seq<(Seq<char>, Seq<char>)>,
    w: Seq<int>,
) -> bool {
    &&& names_of(bv) == distinct_names(p)
    &&& w.len() == bv.len()
    &&& forall|k: int| 0 <= k < w.len() ==> #[trigger] preferred_entry(p, w[k])
    &&& forall|k: int| 0 <= k < w.len() ==> p[w[k]] == #[trigger] bv[k]
}

proof fn lemma_names_distinct(p: Seq<(Seq<char>, Seq<char>)>, bv: Seq<(Seq<char>, Seq<char>)>, a: int, b: int)
    requires
        names_of(bv) == distinct_names(p),
        0 <= a < bv.len(),
        0 <= b < bv.len(),
        a != b,
    ensures
        bv[a].0 != bv[b].0,
{
    lemma_distinct_names_no_duplicates(p);
    assert(names_of(bv)[a] == bv[a].0);
    assert(names_of(bv)[b] == bv[b].0);
}

proof fn lemma_step_new(
    p: Seq<(Seq<char>, Seq<char>)>,
    bv: Seq<(Seq<char>, Seq<char>)>,
    w: Seq<int>,
    e: (Seq<char>, Seq<char>),
)
    requires
        merge_state(p, bv, w),
        forall|x: int| 0 <= x < p.len() ==> #[trigger] p[x].0 != e.0,
    ensures
        merge_state(p.push(e), bv.push(e), w.push(p.len() as int)),
{
    let q = p.push(e);
    let nb = bv.push(e);
    let nw = w.push(p.len() as int);
    assert(q.drop_last() =~= p);
    lemma_distinct_names_contains(p, e.0);
    assert(names_of(nb) =~= names_of(bv).push(e.0));
    assert forall|k: int| 0 <= k < nw.len() implies #[trigger] preferred_entry(q, nw[k]) by {
        if k < w.len() {
            assert(preferred_entry(p, w[k]));
            assert(p[w[k]] == bv[k]);
            assert forall|x: int| 0 <= x < q.len() && #[trigger] q[x].0 == q[nw[k]].0 implies alsa_priority(
                q[nw[k]].1,
            ) <= alsa_priority(q[x].1) by {
                if x < p.len() {
                    assert(p[x].0 == p[w[k]].0);
                } else {
                    lemma_distinct_names_contains(p, bv[k].0);
                    assert(names_of(bv)[k] == bv[k].0);
                    assert(p[w[k]].0 == bv[k].0);
                }
            }
            assert forall|x: int| 0 <= x < nw[k] && #[trigger] q[x].0 == q[nw[k]].0 implies alsa_priority(
                q[x].1,
            ) > alsa_priority(q[nw[k]].1) by {
                assert(p[x].0 == p[w[k]].0);
            }
        } else {
            assert forall|x: int| 0 <= x < q.len() && #[trigger] q[x].0 == q[nw[k]].0 implies alsa_priority(
                q[nw[k]].1,
            ) <= alsa_priority(q[x].1) by {
                if x < p.len() {
                    assert(p[x].0 != e.0);
                }
            }
            assert forall|x: int| 0 <= x < nw[k] && #[trigger] q[x].0 == q[nw[k]].0 implies alsa_priority(
                q[x].1,
            ) > alsa_priority(q[nw[k]].1) by {
                assert(p[x].0 != e.0);
            }
        }
    }
    assert forall|k: int| 0 <= k < nw.len() implies q[nw[k]] == #[trigger] nb[k] by {
        if k < w.len() {
            assert(p[w[k]] == bv[k]);
            assert(preferred_entry(p, w[k]));
        }
    }
}

proof fn lemma_step_same_name(
    p: Seq<(Seq<char>, Seq<char>)>,
    bv: Seq<(Seq<char>, Seq<char>)>,
    w: Seq<int>,
    e: (Seq<char>, Seq<char>),
    k: int,
)
    requires
        merge_state(p, bv, w),
        0 <= k < bv.len(),
        bv[k].0 == e.0,
    ensures
        alsa_priority(e.1) < alsa_priority(bv[k].1) ==> merge_state(
            p.push(e),
            bv.update(k, e),
            w.update(k, p.len() as int),
        ),
        alsa_priority(e.1) >= alsa_priority(bv[k].1) ==> merge_state(p.push(e), bv, w),
{
    let q = p.push(e);
    assert(q.drop_last() =~= p);
    lemma_distinct_names_contains(p, e.0);
    assert(names_of(bv)[k] == bv[k].0);
    assert(distinct_names(q) == distinct_names(p));
    let wk = w[k];
    assert(preferred_entry(p, wk));
    assert(p[wk] == bv[k]);
    if alsa_priority(e.1) < alsa_priority(bv[k].1) {
        let nb = bv.update(k, e);
        let nw = w.update(k, p.len() as int);
        assert(names_of(nb) =~= names_of(bv));
        assert forall|j: int| 0 <= j < nw.len() implies #[trigger] preferred_entry(q, nw[j]) by {
            if j == k {
                assert forall|x: int| 0 <= x < q.len() && #[trigger] q[x].0 == q[nw[j]].0 implies alsa_priority(
                    q[nw[j]].1,
                ) <= alsa_priority(q[x].1) by {
                    if x < p.len() {
                        assert(p[x].0 == p[wk].0);
                    }
                }
                assert forall|x: int| 0 <= x < nw[j] && #[trigger] q[x].0 == q[nw[j]].0 implies alsa_priority(
                    q[x].1,
                ) > alsa_priority(q[nw[j]].1) by {
                    assert(p[x].0 == p[wk].0);
                }
            } else {
                lemma_names_distinct(p, bv, j, k);
                assert(preferred_entry(p, w[j]));
                assert(p[w[j]] == bv[j]);
                assert forall|x: int| 0 <= x < q.len() && #[trigger] q[x].0 == q[nw[j]].0 implies alsa_priority(
                    q[nw[j]].1,
                ) <= alsa_priority(q[x].1) by {
                    if x < p.len() {
                        assert(p[x].0 == p[w[j]].0);
                    }
                }
                assert forall|x: int| 0 <= x < nw[j] && #[trigger] q[x].0 == q[nw[j]].0 implies alsa_priority(
                    q[x].1,
                ) > alsa_priority(q[nw[j]].1) by {
                    assert(p[x].0 == p[w[j]].0);
                }
            }
        }
        assert forall|j: int| 0 <= j < nw.len() implies q[nw[j]] == #[trigger] nb[j] by {
            if j != k {
                assert(p[w[j]] == bv[j]);
                assert(preferred_entry(p, w[j]));
            }
        }
    } else {
        assert forall|j: int| 0 <= j < w.len() implies #[trigger] preferred_entry(q, w[j]) by {
            assert(preferred_entry(p, w[j]));
            assert(p[w[j]] == bv[j]);
            if j != k {
                lemma_names_distinct(p, bv, j, k);
            }
            assert forall|x: int| 0 <= x < q.len() && #[trigger] q[x].0 == q[w[j]].0 implies alsa_priority(
                q[w[j]].1,
            ) <= alsa_priority(q[x].1) by {
                if x < p.len() {
                    assert(p[x].0 == p[w[j]].0);
                }
            }
            assert forall|x: int| 0 <= x < w[j] && #[trigger] q[x].0 == q[w[j]].0 implies alsa_priority(
                q[x].1,
            ) > alsa_priority(q[w[j]].1) by {
                assert(p[x].0 == p[w[j]].0);
            }
        }
        assert forall|j: int| 0 <= j < w.len() implies q[w[j]] == #[trigger] bv[j] by {
            assert(p[w[j]] == bv[j]);
            assert(preferred_entry(p, w[j]));
        }
    }
}

proof fn lemma_merge_done(s: Seq<(Seq<char>, Seq<char>)>, r: Seq<(Seq<char>, Seq<char>)>, w: Seq<int>)
    requires
        merge_state(s, r, w),
    ensures
        merged_aliases(s, r),
{
    assert forall|k: int| 0 <= k < r.len() implies #[trigger] kept_entry(s, r, k) by {
        assert(preferred_entry(s, w[k]));
        assert(s[w[k]] == r[k]);
    }
}

/// The list `r` after one more entry `e` is merged into it: an entry of the
/// same name is replaced when `e` has a better priority, else `e` is added
/// at the end when its name is new.
pub open spec fn merge_step(r: Seq<(Seq<char>, Seq<char>)>, e: (Seq<char>, Seq<char>)) -> Seq<
    (Seq<char>, Seq<char>),
> {
    if exists|k: int| 0 <= k < r.len() && #[trigger] r[k].0 == e.0 {
        let k = choose|k: int| 0 <= k < r.len() && #[trigger] r[k].0 == e.0;
        if alsa_priority(e.1) < alsa_priority(r[k].1) {
            r.update(k, e)
        } else {
            r
        }
    } else {
        r.push(e)
    }
}

/// The list `r` after the entries of `y` are merged into it in turn.
pub open spec fn merge_all(r: Seq<(Seq<char>, Seq<char>)>, y: Seq<(Seq<char>, Seq<char>)>) -> Seq<
    (Seq<char>, Seq<char>),
>
    decreases y.len(),
{
    if y.len() == 0 {
        r
    } else {
        merge_step(merge_all(r, y.drop_last()), y.last())
    }
}

proof fn lemma_merge_all_append(
    r: Seq<(Seq<char>, Seq<char>)>,
    a: Seq<(Seq<char>, Seq<char>)>,
    y: Seq<(Seq<char>, Seq<char>)>,
)
    ensures
        merge_all(r, a + y) == merge_all(merge_all(r, a), y),
    decreases y.len(),
{
    if y.len() == 0 {
        assert(a + y =~= a);
    } else {
        assert((a + y).drop_last() =~= a + y.drop_last());
        assert((a + y).last() == y.last());
        lemma_merge_all_append(r, a, y.drop_last());
    }
}

proof fn lemma_merge_all_state(s: Seq<(Seq<char>, Seq<char>)>) -> (w: Seq<int>)
    ensures
        merge_state(s, merge_all(Seq::empty(), s), w),
    decreases s.len(),
{
    if s.len() == 0 {
        assert(names_of(Seq::<(Seq<char>, Seq<char>)>::empty()) =~= Seq::<Seq<char>>::empty());
        Seq::empty()
    } else {
        let p = s.drop_last();
        let e = s.last();
        let wp = lemma_merge_all_state(p);
        let mp = merge_all(Seq::empty(), p);
        assert(s =~= p.push(e));
        if exists|k: int| 0 <= k < mp.len() && #[trigger] mp[k].0 == e.0 {
            let k = choose|k: int| 0 <= k < mp.len() && #[trigger] mp[k].0 == e.0;
            lemma_step_same_name(p, mp, wp, e, k);
            if alsa_priority(e.1) < alsa_priority(mp[k].1) {
                wp.update(k, p.len() as int)
            } else {
                wp
            }
        } else {
            assert forall|x: int| 0 <= x < p.len() implies #[trigger] p[x].0 != e.0 by {
                if p[x].0 == e.0 {
                    lemma_distinct_names_contains(p, e.0);
                    let q = choose|q: int|
                        0 <= q < distinct_names(p).len() && distinct_names(p)[q] == e.0;
                    assert(names_of(mp)[q] == mp[q].0);
                    assert(mp[q].0 == e.0);
                }
            }
            lemma_step_new(p, mp, wp, e);
            wp.push(p.len() as int)
        }
    }
}

/// A merged list is determined by what was merged.
pub proof fn lemma_merged_unique(
    s: Seq<(Seq<char>, Seq<char>)>,
    r1: Seq<(Seq<char>, Seq<char>)>,
    r2: Seq<(Seq<char>, Seq<char>)>,
)
    requires
        merged_aliases(s, r1),
        merged_aliases(s, r2),
    ensures
        r1 == r2,
{
    assert(names_of(r1).len() == r1.len());
    assert(names_of(r2).len() == r2.len());
    assert forall|k: int| 0 <= k < r1.len() implies r1[k] == r2[k] by {
        assert(names_of(r1)[k] == r1[k].0);
        assert(names_of(r2)[k] == r2[k].0);
        assert(kept_entry(s, r1, k));
        assert(kept_entry(s, r2, k));
        let j1 = choose|j: int| #[trigger] preferred_entry(s, j) && s[j] == r1[k];
        let j2 = choose|j: int| #[trigger] preferred_entry(s, j) && s[j] == r2[k];
        assert(s[j1].0 == s[j2].0);
        if j1 < j2 {
            assert(alsa_priority(s[j1].1) > alsa_priority(s[j2].1));
        } else if j2 < j1 {
            assert(alsa_priority(s[j2].1) > alsa_priority(s[j1].1));
        }
    }
    assert(r1 =~= r2);
}

/// Merging proceeds entry by entry: the merge of a list is the merge of its
/// entries one after the other, starting from nothing.
pub proof fn law_merge_is_stepwise(s: Seq<(Seq<char>, Seq<char>)>, r: Seq<(Seq<char>, Seq<char>)>)
    requires
        merged_aliases(s, r),
    ensures
        r == merge_all(Seq::empty(), s),
{
    let w = lemma_merge_all_state(s);
    lemma_merge_done(s, merge_all(Seq::empty(), s), w);
    lemma_merged_unique(s, r, merge_all(Seq::empty(), s));
}

/// Merging a list followed by more entries gives what merging the merged
/// list followed by them gives: `merge(x ++ y) == merge(merge(x) ++ y)`.
/// With `y` empty this is `law_merge_idempotent`.
pub proof fn law_merge_then_append(
    x: Seq<(Seq<char>, Seq<char>)>,
    y: Seq<(Seq<char>, Seq<char>)>,
    rx: Seq<(Seq<char>, Seq<char>)>,
    r1: Seq<(Seq<char>, Seq<char>)>,
    r2: Seq<(Seq<char>, Seq<char>)>,
)
    requires
        merged_aliases(x, rx),
        merged_aliases(x + y, r1),
        merged_aliases(rx + y, r2),
    ensures
        r1 == r2,
{
    let e = Seq::<(Seq<char>, Seq<char>)>::empty();
    law_merge_is_stepwise(x, rx);
    law_merge_is_stepwise(x + y, r1);
    law_merge_is_stepwise(rx + y, r2);
    lemma_merge_all_append(e, x, y);
    lemma_merge_all_append(e, rx, y);
    let w = lemma_merge_all_state(rx);
    lemma_merge_done(rx, merge_all(e, rx), w);
    law_merge_idempotent(x, rx, merge_all(e, rx));
}

/// Merges the aliases that share a device name: of the entries of one
/// name, the one with the best `alsa_priority` is kept (the first of them on
/// a tie), at the place where the name first appears.
fn merge_alias_entries(devices: Vec<(String, String)>) -> (r: Vec<(String, String)>)
    ensures
        merged_aliases(entries_view(devices@), entries_view(r@)),
{
    let ghost s = entries_view(devices@);
    let mut best: Vec<(String, String)> = Vec::new();
    let ghost mut w: Seq<int> = Seq::empty();
    let len = devices.len();
    let mut i: usize = 0;
    proof {
        assert(s.take(0) =~= Seq::<(Seq<char>, Seq<char>)>::empty());
        assert(names_of(entries_view(best@)) =~= Seq::<Seq<char>>::empty());
    }
    while i < len
        invariant
            len == devices@.len(),
            s == entries_view(devices@),
            i <= len,
            merge_state(s.take(i as int), entries_view(best@), w),
        decreases len - i,
    {
        let name = devices[i].0.clone();
        let id = devices[i].1.clone();
        let ghost pre = s.take(i as int);
        let ghost bv = entries_view(best@);
        let ghost e = (name@, id@);
        assert(s[i as int] == e);
        assert(s.take(i + 1) =~= pre.push(e));
        let mut k: usize = 0;
        let blen = best.len();
        while k < blen && best[k].0 != name
            invariant
                blen == best@.len(),
                k <= blen,
                forall|q: int| 0 <= q < k ==> best@[q].0@ != name@,
            decreases blen - k,
        {
            k += 1;
        }
        if k < blen {
            assert(bv[k as int].0 == e.0);
            let cur = device_priority(best[k].1.as_str());
            let cand = device_priority(id.as_str());
            proof {
                lemma_step_same_name(pre, bv, w, e, k as int);
            }
            if cand < cur {
                best.set(k, (name, id));
                proof {
                    w = w.update(k as int, i as int);
                    assert(entries_view(best@) =~= bv.update(k as int, e));
                }
            }
        } else {
            proof {
                assert forall|x: int| 0 <= x < pre.len() implies #[trigger] pre[x].0 != e.0 by {
                    if pre[x].0 == e.0 {
                        lemma_distinct_names_contains(pre, e.0);
                        let q = choose|q: int|
                            0 <= q < distinct_names(pre).len() && distinct_names(pre)[q] == e.0;
                        assert(names_of(bv)[q] == e.0);
                        assert(best@[q].0@ == name@);
                    }
                }
                lemma_step_new(pre, bv, w, e);
            }
            best.push((name, id));
            proof {
                w = w.push(i as int);
                assert(entries_view(best@) =~= bv.push(e));
            }
        }
        i += 1;
    }
    proof {
        assert(s.take(len as int) =~= s);
        lemma_merge_done(s, entries_view(best@), w);
    }
    best
}


/// Merges the aliases under which ALSA lists one device (see
/// `merge_alias_entries`) when `alsa_aliases` holds, which is the case on
/// Linux; elsewhere the list is returned as it is.
pub fn dedupe_alsa_aliases(devices: Vec<(String, String)>, alsa_aliases: bool) -> (r: Vec<(String, String)>)
    ensures
        alsa_aliases ==> merged_aliases(entries_view(devices@), entries_view(r@)),
        !alsa_aliases ==> r@ == devices@,
{
    if alsa_aliases {
        merge_alias_entries(devices)
    } else {
        devices
    }
}

} // verus!

verus! {

/// The complete entries of a device listing: those whose name and
/// identifier could both be read, in order.
pub open spec fn complete_entries(s: Seq<(Option<String>, Option<String>)>) -> Seq<(Seq<char>, Seq<char>)>
    decreases s.len(),
{
    if s.len() == 0 {
        Seq::empty()
    } else {
        let rest = complete_entries(s.drop_last());
        match s.last() {
            (Some(n), Some(i)) => rest.push((n@, i@)),
            _ => rest,
        }
    }
}

/// Turns an enumeration of devices into the list shown to the user: `None`
/// when the enumeration failed gives an empty list; otherwise the complete
/// entries, with ALSA aliases merged when `merge_aliases` (on Linux).
pub fn query_devices(
    devices: Option<Vec<(Option<String>, Option<String>)>>,
    merge_aliases: bool,
) -> (r: Vec<(String, String)>)
    ensures
        devices is None ==> r@.len() == 0,
        devices is Some && merge_aliases ==> merged_aliases(
            complete_entries(devices->Some_0@),
            entries_view(r@),
        ),
        devices is Some && !merge_aliases ==> entries_view(r@) == complete_entries(
            devices->Some_0@,
        ),
{
    match devices {
        None => Vec::new(),
        Some(list) => {
            let mut all: Vec<(String, String)> = Vec::new();
            let n = list.len();
            let mut i: usize = 0;
            while i < n
                invariant
                    n == list@.len(),
                    i <= n,
                    entries_view(all@) == complete_entries(list@.take(i as int)),
                decreases n - i,
            {
                assert(list@.take(i + 1).drop_last() =~= list@.take(i as int));
                assert(list@.take(i + 1).last() == list@[i as int]);
                let ghost before = all@;
                match (&list[i].0, &list[i].1) {
                    (Some(name), Some(id)) => {
                        all.push((name.clone(), id.clone()));
                        assert(entries_view(all@) =~= entries_view(before).push(
                            (name@, id@),
                        ));
                    },
                    _ => {},
                }
                i += 1;
            }
            assert(list@.take(n as int) =~= list@);
            dedupe_alsa_aliases(all, merge_aliases)
        },
    }
}

/// How an audio device is looked up.
#[derive(Debug, Clone, PartialEq, Eq)]
pub enum AudioDeviceRequest {
    /// The system default device.
    SystemDefault,
    /// The device with this identifier.
    ById(String),
}

/// The lookup of the saved audio input: an empty identifier names no device.
pub fn audio_input_request(id: &str) -> (r: Result<AudioDeviceRequest, AppError>)
    ensures
        id@.len() == 0 ==> r is Err && r->Err_0 == AppError::AudioDeviceNotFound,
        id@.len() > 0 ==> (r matches Ok(AudioDeviceRequest::ById(s)) && s@ == id@),
{
    if id.unicode_len() == 0 {
        Err(AppError::AudioDeviceNotFound)
    } else {
        Ok(AudioDeviceRequest::ById(String::from_str(id)))
    }
}

/// The lookup of the saved audio output: an empty identifier stands for the
/// system default output.
pub fn audio_output_request(id: &str) -> (r: AudioDeviceRequest)
    ensures
        id@.len() == 0 ==> r is SystemDefault,
        id@.len() > 0 ==> (r matches AudioDeviceRequest::ById(s) && s@ == id@),
{
    if id.unicode_len() == 0 {
        AudioDeviceRequest::SystemDefault
    } else {
        AudioDeviceRequest::ById(String::from_str(id))
    }
}

} // verus!
