use vstd::prelude::*;

verus! {

/// One configuration entry as character sequences: `(key, val)` for an
/// environment assignment, `(host, guest)` for a directory mapping.
pub type PairModel = (Seq<char>, Seq<char>);

/// Whether some entry of `s` has key `k`.
pub open spec fn has_key(s: Seq<PairModel>, k: Seq<char>) -> bool {
    exists|j: int| 0 <= j < s.len() && (#[trigger] s[j]).0 == k
}

/// The value of the first entry of `s` whose key is `k`.
pub open spec fn lookup(s: Seq<PairModel>, k: Seq<char>) -> Seq<char>
    decreases s.len(),
{
    if s.len() == 0 {
        Seq::empty()
    } else if s[0].0 == k {
        s[0].1
    } else {
        lookup(s.subrange(1, s.len() as int), k)
    }
}

/// The value that ordered, last-wins application of `s` leaves under `k`:
/// the value of the last entry with that key.
pub open spec fn last_value(s: Seq<PairModel>, k: Seq<char>) -> Seq<char>
    decreases s.len(),
{
    if s.len() == 0 {
        Seq::empty()
    } else if s.last().0 == k {
        s.last().1
    } else {
        last_value(s.drop_last(), k)
    }
}

/// The entries that survive ordered, last-wins application of `s`: an
/// entry stays exactly when no later entry carries the same key, and the
/// survivors keep their relative order.
pub open spec fn last_wins(s: Seq<PairModel>) -> Seq<PairModel>
    decreases s.len(),
{
    if s.len() == 0 {
        s
    } else {
        let tail = s.subrange(1, s.len() as int);
        if has_key(tail, s[0].0) {
            last_wins(tail)
        } else {
            seq![s[0]] + last_wins(tail)
        }
    }
}

/// Last-wins application keeps exactly the keys of the input.
pub proof fn lemma_last_wins_keys(s: Seq<PairModel>)
    ensures
        forall|k: Seq<char>| has_key(last_wins(s), k) == has_key(s, k),
    decreases s.len(),
{
    if s.len() == 0 {
    } else {
        let tail = s.subrange(1, s.len() as int);
        lemma_last_wins_keys(tail);
        assert forall|k: Seq<char>| has_key(last_wins(s), k) == has_key(s, k) by {
            if has_key(s, k) {
                let j = choose|j: int| 0 <= j < s.len() && (#[trigger] s[j]).0 == k;
                if j == 0 {
                    if has_key(tail, s[0].0) {
                        if k == s[0].0 {
                            assert(has_key(last_wins(s), k));
                        }
                    } else {
                        assert((seq![s[0]] + last_wins(tail))[0] == s[0]);
                        assert(has_key(last_wins(s), k));
                    }
                } else {
                    assert(tail[j - 1] == s[j]);
                    assert(has_key(tail, k));
                    let m = choose|m: int|
                        0 <= m < last_wins(tail).len() && (#[trigger] last_wins(tail)[m]).0 == k;
                    if has_key(tail, s[0].0) {
                    } else {
                        assert((seq![s[0]] + last_wins(tail))[m + 1] == last_wins(tail)[m]);
                    }
                    assert(has_key(last_wins(s), k));
                }
            }
            if has_key(last_wins(s), k) {
                let m = choose|m: int|
                    0 <= m < last_wins(s).len() && (#[trigger] last_wins(s)[m]).0 == k;
                if has_key(tail, s[0].0) {
                    assert(has_key(tail, k));
                    let j = choose|j: int| 0 <= j < tail.len() && (#[trigger] tail[j]).0 == k;
                    assert(s[j + 1] == tail[j]);
                    assert(has_key(s, k));
                } else {
                    if m == 0 {
                        assert(s[0].0 == k);
                        assert(has_key(s, k));
                    } else {
                        assert(last_wins(s)[m] == last_wins(tail)[m - 1]);
                        assert(has_key(tail, k));
                        let j = choose|j: int| 0 <= j < tail.len() && (#[trigger] tail[j]).0 == k;
                        assert(s[j + 1] == tail[j]);
                        assert(has_key(s, k));
                    }
                }
            }
        }
    }
}

/// Last-wins application leaves at most one entry per key.
pub proof fn lemma_last_wins_unique(s: Seq<PairModel>)
    ensures
        forall|j1: int, j2: int|
            0 <= j1 < j2 < last_wins(s).len() ==> (#[trigger] last_wins(s)[j1]).0 != (
            #[trigger] last_wins(s)[j2]).0,
    decreases s.len(),
{
    if s.len() == 0 {
    } else {
        let tail = s.subrange(1, s.len() as int);
        lemma_last_wins_unique(tail);
        if has_key(tail, s[0].0) {
        } else {
            lemma_last_wins_keys(tail);
            assert forall|j1: int, j2: int|
                0 <= j1 < j2 < last_wins(s).len() implies (#[trigger] last_wins(s)[j1]).0 != (
            #[trigger] last_wins(s)[j2]).0 by {
                if j1 == 0 {
                    assert(last_wins(s)[j2] == last_wins(tail)[j2 - 1]);
                    if last_wins(s)[0].0 == last_wins(tail)[j2 - 1].0 {
                        assert(has_key(last_wins(tail), s[0].0));
                        assert(has_key(tail, s[0].0));
                    }
                } else {
                    assert(last_wins(s)[j1] == last_wins(tail)[j1 - 1]);
                    assert(last_wins(s)[j2] == last_wins(tail)[j2 - 1]);
                }
            }
        }
    }
}

/// Unfolds `last_value` from the left end of the sequence.
proof fn lemma_last_value_left(s: Seq<PairModel>, k: Seq<char>)
    requires
        s.len() > 0,
    ensures
        last_value(s, k) == if has_key(s.subrange(1, s.len() as int), k) {
            last_value(s.subrange(1, s.len() as int), k)
        } else if s[0].0 == k {
            s[0].1
        } else {
            last_value(s, k)
        },
    decreases s.len(),
{
    let tail = s.subrange(1, s.len() as int);
    if s.len() == 1 {
        assert(tail.len() == 0);
        assert(!has_key(tail, k));
    } else {
        assert(s.last() == tail.last());
        if s.last().0 == k {
            assert(tail[tail.len() - 1].0 == k);
            assert(has_key(tail, k));
        } else {
            let sd = s.drop_last();
            let td = tail.drop_last();
            assert(td =~= sd.subrange(1, sd.len() as int));
            lemma_last_value_left(sd, k);
            assert(has_key(tail, k) == (has_key(td, k) || tail.last().0 == k)) by {
                if has_key(tail, k) {
                    let j = choose|j: int| 0 <= j < tail.len() && (#[trigger] tail[j]).0 == k;
                    if j < tail.len() - 1 {
                        assert(td[j] == tail[j]);
                    }
                } else if has_key(td, k) {
                    let j = choose|j: int| 0 <= j < td.len() && (#[trigger] td[j]).0 == k;
                    assert(tail[j] == td[j]);
                }
                if tail.last().0 == k {
                    assert(tail[tail.len() - 1].0 == k);
                }
            }
            assert(has_key(sd, k) == (has_key(td, k) || sd[0].0 == k)) by {
                if has_key(sd, k) && !has_key(td, k) && sd[0].0 != k {
                    let j = choose|j: int| 0 <= j < sd.len() && (#[trigger] sd[j]).0 == k;
                    assert(td[j - 1] == sd[j]);
                } else if has_key(td, k) {
                    let j = choose|j: int| 0 <= j < td.len() && (#[trigger] td[j]).0 == k;
                    assert(sd[j + 1] == td[j]);
                }
            }
        }
    }
}

/// THE LAST ENTRY WINS: after ordered application of the entries of `s`,
/// the value observed under any present key `k` is the value of the last
/// entry of `s` whose key is `k`. Later entries for the same environment
/// key or guest path therefore override earlier ones.
pub proof fn lemma_last_wins_value(s: Seq<PairModel>, k: Seq<char>)
    requires
        has_key(s, k),
    ensures
        has_key(last_wins(s), k),
        lookup(last_wins(s), k) == last_value(s, k),
    decreases s.len(),
{
    lemma_last_wins_keys(s);
    let tail = s.subrange(1, s.len() as int);
    lemma_last_value_left(s, k);
    if has_key(tail, s[0].0) {
        if has_key(tail, k) {
            lemma_last_wins_value(tail, k);
        } else {
            assert(s[0].0 == k) by {
                let j = choose|j: int| 0 <= j < s.len() && (#[trigger] s[j]).0 == k;
                if j > 0 {
                    assert(tail[j - 1] == s[j]);
                }
            }
            assert(has_key(tail, k)) by {
                let j = choose|j: int| 0 <= j < tail.len() && (#[trigger] tail[j]).0 == s[0].0;
            }
        }
    } else {
        if s[0].0 == k {
            assert(!has_key(tail, k));
            assert(lookup(last_wins(s), k) == s[0].1);
        } else {
            assert(has_key(tail, k)) by {
                let j = choose|j: int| 0 <= j < s.len() && (#[trigger] s[j]).0 == k;
                assert(tail[j - 1] == s[j]);
            }
            lemma_last_wins_value(tail, k);
            assert(last_wins(s) == seq![s[0]] + last_wins(tail));
            assert(last_wins(s)[0] == s[0]);
            assert((seq![s[0]] + last_wins(tail)).subrange(1, last_wins(s).len() as int) =~= last_wins(
                tail,
            ));
        }
    }
}

/// Whether some entry of `v`, at position `from` or later, has key `key`.
fn key_in_suffix(pairs: &Vec<(String, String)>, from: usize, key: &String) -> (b: bool)
    requires
        from <= pairs@.len(),
    ensures
        b == has_key(pairs.deep_view().skip(from as int), key@),
{
    let ghost dv = pairs.deep_view();
    let mut j = from;
    while j < pairs.len()
        invariant
            from <= j <= pairs@.len(),
            dv == pairs.deep_view(),
            dv.len() == pairs@.len(),
            forall|m: int| from <= m < j ==> (#[trigger] dv[m]).0 != key@,
        decreases pairs@.len() - j,
    {
        assert(dv[j as int] == pairs@[j as int].deep_view());
        if pairs[j].0 == *key {
            assert(dv.skip(from as int)[j - from] == dv[j as int]);
            return true;
        }
        j += 1;
    }
    assert forall|m: int| 0 <= m < dv.skip(from as int).len() implies (#[trigger] dv.skip(
        from as int,
    )[m]).0 != key@ by {
        assert(dv.skip(from as int)[m] == dv[m + from]);
    }
    false
}

/// The same entries with each pair's two components exchanged.
pub open spec fn swap_pairs(s: Seq<PairModel>) -> Seq<PairModel> {
    Seq::new(s.len(), |i: int| (s[i].1, s[i].0))
}

/// Exchanging twice gives the entries back.
pub proof fn lemma_swap_involutive(s: Seq<PairModel>)
    ensures
        swap_pairs(swap_pairs(s)) == s,
{
    assert(swap_pairs(swap_pairs(s)) =~= s);
}

/// The entries that survive ordered, last-wins application keyed on the
/// second component (for a mapping `(host, guest)`: its guest path): an
/// entry stays exactly when no later entry carries the same second
/// component, survivors in their original relative order.
pub open spec fn last_wins_by_snd(s: Seq<PairModel>) -> Seq<PairModel> {
    swap_pairs(last_wins(swap_pairs(s)))
}

/// The first host mapped to `guest` among the entries of `s`.
pub open spec fn lookup_host(s: Seq<PairModel>, guest: Seq<char>) -> Seq<char> {
    lookup(swap_pairs(s), guest)
}

/// The host of the last entry of `s` mapping `guest`.
pub open spec fn last_host(s: Seq<PairModel>, guest: Seq<char>) -> Seq<char> {
    last_value(swap_pairs(s), guest)
}

/// THE LATER MAPPING MASKS: after ordered application of the mappings of
/// `s`, the host directory visible under any mapped guest path is the
/// host of the last entry of `s` mapping that guest path.
pub proof fn lemma_map_override(s: Seq<PairModel>, guest: Seq<char>)
    requires
        has_key(swap_pairs(s), guest),
    ensures
        has_key(swap_pairs(last_wins_by_snd(s)), guest),
        lookup_host(last_wins_by_snd(s), guest) == last_host(s, guest),
{
    lemma_last_wins_value(swap_pairs(s), guest);
    lemma_swap_involutive(last_wins(swap_pairs(s)));
}

/// The effective configuration entries of `pairs` under ordered,
/// last-wins application: only the last entry for each key survives,
/// survivors in their original relative order.
pub fn effective_pairs(pairs: &Vec<(String, String)>) -> (r: Vec<(String, String)>)
    ensures
        r.deep_view() == last_wins(pairs.deep_view()),
{
    let ghost dv = pairs.deep_view();
    let mut r: Vec<(String, String)> = Vec::new();
    assert(r.deep_view() =~= Seq::<PairModel>::empty());
    assert(dv.skip(0) =~= dv);
    let mut i: usize = 0;
    while i < pairs.len()
        invariant
            i <= pairs@.len(),
            dv == pairs.deep_view(),
            dv.len() == pairs@.len(),
            r.deep_view() + last_wins(dv.skip(i as int)) =~= last_wins(dv),
        decreases pairs@.len() - i,
    {
        let ghost pre = r.deep_view();
        let ghost suf = dv.skip(i as int);
        assert(suf.len() > 0);
        assert(suf[0] == dv[i as int]);
        assert(suf.subrange(1, suf.len() as int) =~= dv.skip(i as int + 1));
        assert(dv[i as int] == pairs@[i as int].deep_view());
        let hk = key_in_suffix(pairs, i + 1, &pairs[i].0);
        if !hk {
            let kv = (pairs[i].0.clone(), pairs[i].1.clone());
            r.push(kv);
            assert(r.deep_view() =~= pre + seq![dv[i as int]]);
            assert(pre + seq![dv[i as int]] + last_wins(dv.skip(i as int + 1)) =~= pre + (
            seq![dv[i as int]] + last_wins(dv.skip(i as int + 1))));
        }
        i += 1;
    }
    assert(dv.skip(dv.len() as int) =~= Seq::<PairModel>::empty());
    assert(r.deep_view() + Seq::<PairModel>::empty() =~= r.deep_view());
    r
}

/// The same entries with each pair's two components exchanged.
fn swap_exec(pairs: &Vec<(String, String)>) -> (r: Vec<(String, String)>)
    ensures
        r.deep_view() == swap_pairs(pairs.deep_view()),
{
    let ghost dv = pairs.deep_view();
    let mut r: Vec<(String, String)> = Vec::new();
    let mut i: usize = 0;
    while i < pairs.len()
        invariant
            dv == pairs.deep_view(),
            dv.len() == pairs@.len(),
            i <= pairs@.len(),
            r.deep_view().len() == i,
            forall|m: int|
                0 <= m < i ==> #[trigger] r.deep_view()[m] == (dv[m].1, dv[m].0),
        decreases pairs@.len() - i,
    {
        assert(dv[i as int] == pairs@[i as int].deep_view());
        let ghost r0 = r.deep_view();
        let kv = (pairs[i].1.clone(), pairs[i].0.clone());
        let ghost kv_model = kv.deep_view();
        r.push(kv);
        assert(r@.len() == i + 1);
        assert(r.deep_view()[i as int] == kv_model);
        assert(kv_model == (dv[i as int].1, dv[i as int].0));
        assert(forall|m: int| 0 <= m < i ==> #[trigger] r.deep_view()[m] == r0[m]);
        i += 1;
    }
    assert(r.deep_view() =~= swap_pairs(dv));
    r
}

/// The effective directory mappings of `pairs` under ordered, last-wins
/// application keyed on the guest path: only the last mapping to each
/// guest path survives, survivors in their original relative order.
pub fn effective_pairs_by_snd(pairs: &Vec<(String, String)>) -> (r: Vec<(String, String)>)
    ensures
        r.deep_view() == last_wins_by_snd(pairs.deep_view()),
{
    let turned = swap_exec(pairs);
    let reduced = effective_pairs(&turned);
    swap_exec(&reduced)
}

} // verus!
