use vstd::prelude::*;
use vstd::string::*;
use crate::utils::text::{trim, trimmed};

verus! {

/// Tags trimmed, in their order, without those of which nothing is left.
pub open spec fn cleaned_tags(tags: Seq<Seq<char>>) -> Seq<Seq<char>>
    decreases tags.len(),
{
    if tags.len() == 0 {
        Seq::empty()
    } else {
        let rest = cleaned_tags(tags.drop_last());
        let t = trimmed(tags.last());
        if t.len() == 0 {
            rest
        } else {
            rest.push(t)
        }
    }
}

/// Trims every tag and drops those of which nothing is left.
pub fn clean_tags(tags: &Vec<String>) -> (r: Vec<String>)
    ensures
        r.deep_view() == cleaned_tags(tags.deep_view()),
{
    let ghost all = tags.deep_view();
    let mut out: Vec<String> = Vec::new();
    let mut i: usize = 0;
    while i < tags.len()
        invariant
            i <= tags.len(),
            all == tags.deep_view(),
            out.deep_view() == cleaned_tags(all.subrange(0, i as int)),
        decreases tags.len() - i,
    {
        let t = trim(tags[i].as_str());
        proof {
            let pre = all.subrange(0, i + 1);
            assert(pre.drop_last() =~= all.subrange(0, i as int));
            assert(pre.last() == tags[i as int]@);
        }
        if t.unicode_len() != 0 {
            out.push(t);
            proof {
                assert(out.deep_view() =~= cleaned_tags(all.subrange(0, i + 1)));
            }
        }
        i = i + 1;
    }
    assert(all.subrange(0, i as int) =~= all);
    out
}

/// Cleaning tags that were already cleaned changes nothing.
pub proof fn lemma_cleaned_tags_idempotent(tags: Seq<Seq<char>>)
    ensures
        cleaned_tags(cleaned_tags(tags)) == cleaned_tags(tags),
    decreases tags.len(),
{
    if tags.len() > 0 {
        lemma_cleaned_tags_idempotent(tags.drop_last());
        let rest = cleaned_tags(tags.drop_last());
        let t = trimmed(tags.last());
        if t.len() != 0 {
            let s = rest.push(t);
            assert(s.drop_last() =~= rest);
            crate::utils::text::lemma_trimmed_idempotent(tags.last());
        }
    }
}

/// Every cleaned tag is trimmed and not empty.
pub proof fn lemma_cleaned_tags_shape(tags: Seq<Seq<char>>)
    ensures
        forall|i: int|
            0 <= i < cleaned_tags(tags).len() ==> (#[trigger] cleaned_tags(tags)[i]).len() > 0
                && trimmed(cleaned_tags(tags)[i]) == cleaned_tags(tags)[i],
        cleaned_tags(tags).len() <= tags.len(),
    decreases tags.len(),
{
    if tags.len() > 0 {
        lemma_cleaned_tags_shape(tags.drop_last());
        crate::utils::text::lemma_trimmed_idempotent(tags.last());
    }
}

/// Whether `out` is `tags` with every tag trimmed, in their order, without
/// the tags of which nothing is left: the result's tags are taken, in
/// increasing positions, from exactly the input tags that are not blank.
pub open spec fn keeps_nonblank_in_order(tags: Seq<Seq<char>>, out: Seq<Seq<char>>) -> bool {
    exists|idx: Seq<int>| #[trigger] picks_nonblank(tags, out, idx)
}

/// The positions `idx` in `tags` from which the tags of `out` come.
pub open spec fn picks_nonblank(tags: Seq<Seq<char>>, out: Seq<Seq<char>>, idx: Seq<int>) -> bool {
    &&& idx.len() == out.len()
    &&& forall|k: int| 0 <= k < idx.len() ==> 0 <= #[trigger] idx[k] < tags.len()
        && out[k] == trimmed(tags[idx[k]]) && out[k].len() > 0
    &&& forall|k: int, l: int| 0 <= k < l < idx.len() ==> #[trigger] idx[k] < #[trigger] idx[l]
    &&& forall|j: int| 0 <= j < tags.len() && #[trigger] trimmed(tags[j]).len() > 0
        ==> exists|k: int| 0 <= k < idx.len() && idx[k] == j
}

/// Cleaning keeps every tag that is not blank, trimmed and in its place in
/// the order, and nothing else.
pub proof fn lemma_cleaned_tags_keep_nonblank(tags: Seq<Seq<char>>)
    ensures
        keeps_nonblank_in_order(tags, cleaned_tags(tags)),
    decreases tags.len(),
{
    if tags.len() == 0 {
        assert(picks_nonblank(tags, cleaned_tags(tags), Seq::<int>::empty()));
    } else {
        let front = tags.drop_last();
        lemma_cleaned_tags_keep_nonblank(front);
        let rest = cleaned_tags(front);
        let ridx = choose|idx: Seq<int>| #[trigger] picks_nonblank(front, rest, idx);
        assert(picks_nonblank(front, rest, ridx));
        let n = tags.len() - 1;
        let t = trimmed(tags.last());
        assert forall|j: int| 0 <= j < n implies tags[j] == front[j] by {}
        if t.len() == 0 {
            assert forall|j: int| 0 <= j < tags.len() && #[trigger] trimmed(tags[j]).len() > 0
                implies exists|k: int| 0 <= k < ridx.len() && ridx[k] == j by {
                assert(tags[j] == front[j]);
            }
            assert(picks_nonblank(tags, rest, ridx));
        } else {
            let idx = ridx.push(n);
            let out = rest.push(t);
            assert forall|k: int| 0 <= k < idx.len() implies 0 <= #[trigger] idx[k] < tags.len()
                && out[k] == trimmed(tags[idx[k]]) && out[k].len() > 0 by {
                if k < ridx.len() {
                    assert(idx[k] == ridx[k]);
                    assert(out[k] == rest[k]);
                    assert(tags[ridx[k]] == front[ridx[k]]);
                }
            }
            assert forall|k: int, l: int| 0 <= k < l < idx.len() implies #[trigger] idx[k] < #[trigger] idx[l] by {
                assert(idx[k] == ridx[k]);
                if l < ridx.len() {
                    assert(idx[l] == ridx[l]);
                }
            }
            assert forall|j: int| 0 <= j < tags.len() && #[trigger] trimmed(tags[j]).len() > 0
                implies exists|k: int| 0 <= k < idx.len() && idx[k] == j by {
                if j == n {
                    assert(idx[ridx.len() as int] == j);
                } else {
                    assert(tags[j] == front[j]);
                    assert(trimmed(front[j]).len() > 0);
                    let k = choose|k: int| 0 <= k < ridx.len() && ridx[k] == j;
                    assert(idx[k] == j);
                }
            }
            assert(picks_nonblank(tags, out, idx));
        }
    }
}

} // verus!
