use vstd::prelude::*;
use crate::app::dashboard::{ItemInfo, ItemInfoView};

verus! {

/// Whether text `a` comes no later than text `b` in the order of their
/// characters' code points, a text before every longer text that it starts.
pub open spec fn text_le(a: Seq<char>, b: Seq<char>) -> bool
    decreases a.len(),
{
    if a.len() == 0 {
        true
    } else if b.len() == 0 {
        false
    } else if (a[0] as u32) < (b[0] as u32) {
        true
    } else if (a[0] as u32) > (b[0] as u32) {
        false
    } else {
        text_le(a.drop_first(), b.drop_first())
    }
}

/// Whether name `a` comes no later than name `b`: no name before any name,
/// names in the order of their texts.
pub open spec fn name_le(a: Option<Seq<char>>, b: Option<Seq<char>>) -> bool {
    match (a, b) {
        (None, _) => true,
        (Some(_), None) => false,
        (Some(x), Some(y)) => text_le(x, y),
    }
}

/// Inserts an item into a list, after every item whose name comes no later.
pub open spec fn insert_by_name(s: Seq<ItemInfoView>, x: ItemInfoView) -> Seq<ItemInfoView>
    decreases s.len(),
{
    if s.len() == 0 {
        seq![x]
    } else if name_le(s.last().name, x.name) {
        s.push(x)
    } else {
        insert_by_name(s.drop_last(), x).push(s.last())
    }
}

/// The items in the order of their names; items with the same name keep
/// their order.
pub open spec fn sorted_by_name(s: Seq<ItemInfoView>) -> Seq<ItemInfoView>
    decreases s.len(),
{
    if s.len() == 0 {
        s
    } else {
        insert_by_name(sorted_by_name(s.drop_last()), s.last())
    }
}

/// Every item's name comes no later than the names of the items after it.
pub open spec fn is_sorted_by_name(s: Seq<ItemInfoView>) -> bool {
    forall|i: int, j: int| 0 <= i < j < s.len() ==> name_le(#[trigger] s[i].name, #[trigger] s[j].name)
}

proof fn lemma_text_le_total(a: Seq<char>, b: Seq<char>)
    ensures
        text_le(a, b) || text_le(b, a),
    decreases a.len(),
{
    if a.len() > 0 && b.len() > 0 && (a[0] as u32) == (b[0] as u32) {
        lemma_text_le_total(a.drop_first(), b.drop_first());
    }
}

proof fn lemma_text_le_transitive(a: Seq<char>, b: Seq<char>, c: Seq<char>)
    requires
        text_le(a, b),
        text_le(b, c),
    ensures
        text_le(a, c),
    decreases a.len(),
{
    if a.len() > 0 && b.len() > 0 && c.len() > 0 {
        if (a[0] as u32) == (b[0] as u32) && (b[0] as u32) == (c[0] as u32) {
            lemma_text_le_transitive(a.drop_first(), b.drop_first(), c.drop_first());
        }
    }
}

/// Names are ordered by their first differing character: a text whose
/// first differing character has the lower code point comes strictly first,
/// whatever follows it.
pub proof fn lemma_text_le_first_difference(p: Seq<char>, x: char, y: char, r1: Seq<char>, r2: Seq<char>)
    requires
        (x as u32) < (y as u32),
    ensures
        text_le(p + seq![x] + r1, p + seq![y] + r2),
        !text_le(p + seq![y] + r2, p + seq![x] + r1),
    decreases p.len(),
{
    let a = p + seq![x] + r1;
    let b = p + seq![y] + r2;
    if p.len() == 0 {
        assert(a[0] == x && b[0] == y);
    } else {
        assert(a[0] == p[0] && b[0] == p[0]);
        lemma_text_le_first_difference(p.drop_first(), x, y, r1, r2);
        assert(a.drop_first() =~= p.drop_first() + seq![x] + r1);
        assert(b.drop_first() =~= p.drop_first() + seq![y] + r2);
    }
}

/// A text comes no later than every text that it starts, and a longer text
/// never comes before its own start.
pub proof fn lemma_text_le_prefix(p: Seq<char>, r: Seq<char>)
    ensures
        text_le(p, p + r),
        r.len() > 0 ==> !text_le(p + r, p),
    decreases p.len(),
{
    if p.len() > 0 {
        let b = p + r;
        assert(b[0] == p[0]);
        lemma_text_le_prefix(p.drop_first(), r);
        assert(b.drop_first() =~= p.drop_first() + r);
    }
}

/// Two texts that each come no later than the other are the same text.
pub proof fn lemma_text_le_antisymmetric(a: Seq<char>, b: Seq<char>)
    requires
        text_le(a, b),
        text_le(b, a),
    ensures
        a == b,
    decreases a.len(),
{
    if a.len() > 0 && b.len() > 0 {
        lemma_text_le_antisymmetric(a.drop_first(), b.drop_first());
        assert((a[0] as u32) == (b[0] as u32));
        vstd::utf8::char_u32_cast(a[0], a[0] as u32);
        vstd::utf8::char_u32_cast(b[0], b[0] as u32);
        assert(a[0] == b[0]);
        assert(a =~= seq![a[0]] + a.drop_first());
        assert(b =~= seq![b[0]] + b.drop_first());
    }
}

/// The order of names is total.
pub proof fn lemma_name_le_total(a: Option<Seq<char>>, b: Option<Seq<char>>)
    ensures
        name_le(a, b) || name_le(b, a),
{
    if let (Some(x), Some(y)) = (a, b) {
        lemma_text_le_total(x, y);
    }
}

/// The order of names is transitive.
pub proof fn lemma_name_le_transitive(a: Option<Seq<char>>, b: Option<Seq<char>>, c: Option<Seq<char>>)
    requires
        name_le(a, b),
        name_le(b, c),
    ensures
        name_le(a, c),
{
    if let (Some(x), Some(y), Some(z)) = (a, b, c) {
        lemma_text_le_transitive(x, y, z);
    }
}

proof fn lemma_insert_multiset(s: Seq<ItemInfoView>, x: ItemInfoView)
    ensures
        insert_by_name(s, x).to_multiset() == s.to_multiset().insert(x),
        insert_by_name(s, x).len() == s.len() + 1,
    decreases s.len(),
{
    broadcast use vstd::seq_lib::group_to_multiset_ensures;

    if s.len() == 0 {
        assert(seq![x] =~= Seq::<ItemInfoView>::empty().push(x));
    } else if name_le(s.last().name, x.name) {
    } else {
        lemma_insert_multiset(s.drop_last(), x);
        assert(s =~= s.drop_last().push(s.last()));
        assert(s.to_multiset() == s.drop_last().to_multiset().insert(s.last()));
    }
}

proof fn lemma_insert_sorted(s: Seq<ItemInfoView>, x: ItemInfoView)
    requires
        is_sorted_by_name(s),
    ensures
        is_sorted_by_name(insert_by_name(s, x)),
        forall|k: int|
            0 <= k < insert_by_name(s, x).len() ==> (#[trigger] insert_by_name(s, x)[k] == x
                || s.contains(insert_by_name(s, x)[k])),
    decreases s.len(),
{
    if s.len() == 0 {
    } else if name_le(s.last().name, x.name) {
        let r = s.push(x);
        assert forall|i: int, j: int| 0 <= i < j < r.len() implies name_le(#[trigger] r[i].name, #[trigger] r[j].name) by {
            if j == s.len() {
                if i < s.len() - 1 {
                    assert(name_le(s[i].name, s[s.len() - 1].name));
                    lemma_name_le_transitive(s[i].name, s.last().name, x.name);
                }
            } else {
                assert(r[i] == s[i] && r[j] == s[j]);
            }
        }
        assert forall|k: int| 0 <= k < r.len() implies (#[trigger] r[k] == x || s.contains(r[k])) by {
            if k < s.len() {
                assert(r[k] == s[k]);
            }
        }
    } else {
        let t = s.drop_last();
        assert(is_sorted_by_name(t)) by {
            assert forall|i: int, j: int| 0 <= i < j < t.len() implies name_le(#[trigger] t[i].name, #[trigger] t[j].name) by {
                assert(t[i] == s[i] && t[j] == s[j]);
            }
        }
        lemma_insert_sorted(t, x);
        lemma_insert_multiset(t, x);
        let u = insert_by_name(t, x);
        let r = u.push(s.last());
        lemma_name_le_total(s.last().name, x.name);
        assert forall|k: int| 0 <= k < u.len() implies name_le((#[trigger] u[k]).name, s.last().name) by {
            if u[k] != x {
                assert(t.contains(u[k]));
                let m = choose|m: int| 0 <= m < t.len() && t[m] == u[k];
                assert(s[m] == t[m]);
                assert(name_le(s[m].name, s[s.len() - 1].name));
            }
        }
        assert forall|i: int, j: int| 0 <= i < j < r.len() implies name_le(#[trigger] r[i].name, #[trigger] r[j].name) by {
            if j == u.len() {
                assert(r[i] == u[i]);
            } else {
                assert(r[i] == u[i] && r[j] == u[j]);
            }
        }
        assert forall|k: int| 0 <= k < r.len() implies (#[trigger] r[k] == x || s.contains(r[k])) by {
            if k < u.len() {
                assert(r[k] == u[k]);
                if u[k] != x {
                    assert(t.contains(u[k]));
                    let m = choose|m: int| 0 <= m < t.len() && t[m] == u[k];
                    assert(s[m] == t[m]);
                }
            } else {
                assert(s[s.len() - 1] == s.last());
            }
        }
    }
}

/// The items come out in the order of their names.
pub proof fn lemma_sorted_by_name_is_sorted(s: Seq<ItemInfoView>)
    ensures
        is_sorted_by_name(sorted_by_name(s)),
    decreases s.len(),
{
    if s.len() > 0 {
        lemma_sorted_by_name_is_sorted(s.drop_last());
        lemma_insert_sorted(sorted_by_name(s.drop_last()), s.last());
    }
}

/// Sorting keeps every item, as often as it occurs, and adds none.
pub proof fn lemma_sorted_by_name_permutes(s: Seq<ItemInfoView>)
    ensures
        sorted_by_name(s).to_multiset() == s.to_multiset(),
        sorted_by_name(s).len() == s.len(),
    decreases s.len(),
{
    broadcast use vstd::seq_lib::group_to_multiset_ensures;

    if s.len() > 0 {
        lemma_sorted_by_name_permutes(s.drop_last());
        lemma_insert_multiset(sorted_by_name(s.drop_last()), s.last());
        assert(s =~= s.drop_last().push(s.last()));
    }
}

/// Whether an item has the given name.
pub open spec fn has_name(n: Option<Seq<char>>) -> spec_fn(ItemInfoView) -> bool {
    |x: ItemInfoView| x.name == n
}

proof fn lemma_insert_filter(s: Seq<ItemInfoView>, x: ItemInfoView, n: Option<Seq<char>>)
    ensures
        insert_by_name(s, x).filter(has_name(n)) == if has_name(n)(x) {
            s.filter(has_name(n)).push(x)
        } else {
            s.filter(has_name(n))
        },
    decreases s.len(),
{
    let f = has_name(n);
    if s.len() == 0 {
        assert(seq![x] =~= s.push(x));
        s.lemma_filter_push(x, f);
    } else if name_le(s.last().name, x.name) {
        s.lemma_filter_push(x, f);
    } else {
        let d = s.drop_last();
        let l = s.last();
        lemma_insert_filter(d, x, n);
        insert_by_name(d, x).lemma_filter_push(l, f);
        assert(s =~= d.push(l));
        d.lemma_filter_push(l, f);
        lemma_name_le_total(l.name, l.name);
        assert(!(f(x) && f(l)));
    }
}

/// Sorting is stable: the items that share any one name come out in the
/// order in which they came in.
pub proof fn lemma_sorted_by_name_stable(s: Seq<ItemInfoView>, n: Option<Seq<char>>)
    ensures
        sorted_by_name(s).filter(has_name(n)) == s.filter(has_name(n)),
    decreases s.len(),
{
    let f = has_name(n);
    if s.len() > 0 {
        let d = s.drop_last();
        lemma_sorted_by_name_stable(d, n);
        lemma_insert_filter(sorted_by_name(d), s.last(), n);
        assert(s =~= d.push(s.last()));
        d.lemma_filter_push(s.last(), f);
    }
}

/// Inserting an item at the first place after which only later names
/// follow is what `insert_by_name` does.
proof fn lemma_insert_at(s: Seq<ItemInfoView>, x: ItemInfoView, j: int)
    requires
        0 <= j <= s.len(),
        forall|k: int| j <= k < s.len() ==> !name_le(#[trigger] s[k].name, x.name),
        j == 0 || name_le(s[j - 1].name, x.name),
    ensures
        insert_by_name(s, x) == s.insert(j, x),
    decreases s.len(),
{
    if s.len() == 0 {
        assert(s.insert(j, x) =~= seq![x]);
    } else if j == s.len() {
        assert(s.insert(j, x) =~= s.push(x));
    } else {
        let t = s.drop_last();
        assert(!name_le(s[s.len() - 1].name, x.name));
        assert forall|k: int| j <= k < t.len() implies !name_le(#[trigger] t[k].name, x.name) by {
            assert(t[k] == s[k]);
        }
        if j > 0 {
            assert(t[j - 1] == s[j - 1]);
        }
        lemma_insert_at(t, x, j);
        assert(t.insert(j, x).push(s.last()) =~= s.insert(j, x));
    }
}

/// Whether the name of `a` comes no later than the name of `b`.
fn item_name_le(a: &Option<String>, b: &Option<String>) -> (r: bool)
    ensures
        r == name_le(a.deep_view(), b.deep_view()),
{
    match (a, b) {
        (None, _) => true,
        (Some(_), None) => false,
        (Some(x), Some(y)) => text_le_exec(x.as_str(), y.as_str()),
    }
}

fn text_le_exec(a: &str, b: &str) -> (r: bool)
    ensures
        r == text_le(a@, b@),
{
    let n = a.unicode_len();
    let m = b.unicode_len();
    let mut i: usize = 0;
    assert(a@.subrange(0, n as int) =~= a@);
    assert(b@.subrange(0, m as int) =~= b@);
    while i < n && i < m
        invariant
            n == a@.len(),
            m == b@.len(),
            i <= n,
            i <= m,
            text_le(a@, b@) == text_le(a@.subrange(i as int, n as int), b@.subrange(i as int, m as int)),
        decreases n - i,
    {
        let x = a.get_char(i);
        let y = b.get_char(i);
        let ghost sa = a@.subrange(i as int, n as int);
        let ghost sb = b@.subrange(i as int, m as int);
        assert(sa[0] == x && sb[0] == y);
        if (x as u32) < (y as u32) {
            return true;
        }
        if (x as u32) > (y as u32) {
            return false;
        }
        assert(sa.drop_first() =~= a@.subrange(i + 1, n as int));
        assert(sb.drop_first() =~= b@.subrange(i + 1, m as int));
        i = i + 1;
    }
    i == n
}

/// Sorts items by name, keeping the order of items with the same name.
pub fn sort_items_by_name(items: &mut Vec<ItemInfo>)
    ensures
        final(items).deep_view() == sorted_by_name(old(items).deep_view()),
{
    let ghost orig = items.deep_view();
    let n = items.len();
    if n == 0 {
        return;
    }
    let mut i: usize = 1;
    assert(orig.subrange(0, 1).drop_last() =~= Seq::<ItemInfoView>::empty());
    assert(items.deep_view() =~= orig.subrange(0, 1) + orig.subrange(1, n as int));
    assert(sorted_by_name(orig.subrange(0, 1).drop_last()) =~= Seq::<ItemInfoView>::empty());
    assert(insert_by_name(Seq::<ItemInfoView>::empty(), orig[0]) =~= seq![orig[0]]);
    assert(sorted_by_name(orig.subrange(0, 1)) =~= orig.subrange(0, 1));
    while i < n
        invariant
            1 <= i <= n,
            n == items.len(),
            orig.len() == n,
            items.deep_view() == sorted_by_name(orig.subrange(0, i as int)) + orig.subrange(i as int, n as int),
        decreases n - i,
    {
        let ghost pre = sorted_by_name(orig.subrange(0, i as int));
        proof {
            lemma_sorted_by_name_permutes(orig.subrange(0, i as int));
        }
        let ghost dv = items.deep_view();
        assert(dv[i as int] == orig[i as int]);
        let x = items.remove(i);
        assert(x@ == orig[i as int]);
        assert(items.deep_view() =~= dv.remove(i as int));
        assert(items.deep_view() =~= pre + orig.subrange(i + 1, n as int));
        let mut j: usize = i;
        while j > 0 && !item_name_le(&items[j - 1].name, &x.name)
            invariant
                0 <= j <= i,
                i < n,
                items.len() == n - 1,
                pre.len() == i,
                items.deep_view() == pre + orig.subrange(i + 1, n as int),
                forall|k: int| j <= k < i ==> !name_le(#[trigger] pre[k].name, x@.name),
            decreases j,
        {
            assert(items.deep_view()[j - 1] == pre[j - 1]);
            j = j - 1;
        }
        proof {
            if j > 0 {
                assert(items.deep_view()[j - 1] == pre[j - 1]);
            }
            lemma_insert_at(pre, x@, j as int);
        }
        let ghost dv2 = items.deep_view();
        let ghost xv = x@;
        items.insert(j, x);
        proof {
            assert(items.deep_view() =~= dv2.insert(j as int, xv));
            let s = orig.subrange(0, i + 1);
            assert(s.drop_last() =~= orig.subrange(0, i as int));
            assert(s.last() == orig[i as int]);
            assert(items.deep_view() =~= pre.insert(j as int, x@) + orig.subrange(i + 1, n as int));
        }
        i = i + 1;
    }
    assert(orig.subrange(0, n as int) =~= orig);
    assert(items.deep_view() =~= sorted_by_name(orig));
}

} // verus!
