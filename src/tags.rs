use vstd::prelude::*;

verus! {

/// The tags of `current` followed by those of `add`, in that order, less
/// every tag that `remove` holds. Duplicates are kept.
pub open spec fn tag_delta(current: Seq<Seq<char>>, add: Seq<Seq<char>>, remove: Seq<Seq<char>>) -> Seq<Seq<char>> {
    (current + add).filter(|t: Seq<char>| !remove.contains(t))
}

/// Whether `tags` holds a string equal to `tag`.
pub fn contains_tag(tags: &Vec<String>, tag: &String) -> (r: bool)
    ensures
        r == tags.deep_view().contains(tag@),
{
    let mut i: usize = 0;
    while i < tags.len()
        invariant
            i <= tags@.len(),
            forall|j: int| 0 <= j < i ==> tags.deep_view()[j] != tag@,
        decreases tags@.len() - i,
    {
        if tags[i] == *tag {
            assert(tags.deep_view()[i as int] == tag@);
            return true;
        }
        i = i + 1;
    }
    false
}

/// The tags after an edit: `current` then `add`, without those in `remove`.
pub fn apply_tag_delta(current: &Vec<String>, add: &Vec<String>, remove: &Vec<String>) -> (r: Vec<String>)
    ensures
        r.deep_view() == tag_delta(current.deep_view(), add.deep_view(), remove.deep_view()),
{
    let ghost all = current.deep_view() + add.deep_view();
    let ghost keep = |t: Seq<char>| !remove.deep_view().contains(t);
    let mut r: Vec<String> = Vec::new();
    let mut i: usize = 0;
    while i < current.len()
        invariant
            all == current.deep_view() + add.deep_view(),
            keep == (|t: Seq<char>| !remove.deep_view().contains(t)),
            i <= current@.len(),
            r.deep_view() == all.subrange(0, i as int).filter(keep),
        decreases current@.len() - i,
    {
        keep_if_not_removed(&mut r, &current[i], remove, Ghost(all), Ghost(i as int), Ghost(keep));
        i = i + 1;
    }
    let mut j: usize = 0;
    while j < add.len()
        invariant
            all == current.deep_view() + add.deep_view(),
            keep == (|t: Seq<char>| !remove.deep_view().contains(t)),
            j <= add@.len(),
            r.deep_view() == all.subrange(0, current@.len() + j).filter(keep),
        decreases add@.len() - j,
    {
        keep_if_not_removed(&mut r, &add[j], remove, Ghost(all), Ghost(current@.len() + j), Ghost(keep));
        j = j + 1;
    }
    assert(all.subrange(0, all.len() as int) =~= all);
    r
}

/// Appends `t`, which stands at `at` in `all`, unless `remove` holds it.
fn keep_if_not_removed(
    r: &mut Vec<String>,
    t: &String,
    remove: &Vec<String>,
    Ghost(all): Ghost<Seq<Seq<char>>>,
    Ghost(at): Ghost<int>,
    Ghost(keep): Ghost<spec_fn(Seq<char>) -> bool>,
)
    requires
        0 <= at < all.len(),
        all[at] == t@,
        keep == (|x: Seq<char>| !remove.deep_view().contains(x)),
        old(r).deep_view() == all.subrange(0, at).filter(keep),
    ensures
        final(r).deep_view() == all.subrange(0, at + 1).filter(keep),
{
    proof {
        reveal(Seq::filter);
        assert(all.subrange(0, at + 1).drop_last() =~= all.subrange(0, at));
        assert(all.subrange(0, at + 1).last() == t@);
    }
    if !contains_tag(remove, t) {
        let ghost old_r = r.deep_view();
        r.push(t.clone());
        assert(r.deep_view() =~= old_r.push(t@));
    }
}

/// A tag is in the edited list exactly when it was among the current or
/// the added tags and is not among the removed ones.
pub proof fn lemma_tag_delta_members(current: Seq<Seq<char>>, add: Seq<Seq<char>>, remove: Seq<Seq<char>>, tag: Seq<char>)
    ensures
        tag_delta(current, add, remove).contains(tag) <==> ((current.contains(tag) || add.contains(tag))
            && !remove.contains(tag)),
{
    let all = current + add;
    let keep = |t: Seq<char>| !remove.contains(t);
    broadcast use vstd::seq_lib::group_filter_ensures;

    assert(tag_delta(current, add, remove) == all.filter(keep));
    if all.filter(keep).contains(tag) {
        let k = choose|k: int| 0 <= k < all.filter(keep).len() && all.filter(keep)[k] == tag;
        assert(keep(all.filter(keep)[k]));
        lemma_filter_members_from(all, keep, k);
    }
    if current.contains(tag) {
        let i = choose|i: int| 0 <= i < current.len() && current[i] == tag;
        assert(all[i] == tag);
    }
    if add.contains(tag) {
        let i = choose|i: int| 0 <= i < add.len() && add[i] == tag;
        assert(all[current.len() + i] == tag);
    }
    if all.contains(tag) {
        let i = choose|i: int| 0 <= i < all.len() && all[i] == tag;
        if i < current.len() {
            assert(current[i] == tag);
        } else {
            assert(add[i - current.len()] == tag);
        }
    }
}

/// The edited list keeps the order in which its tags first stood: it is
/// the current then the added tags with the removed ones filtered out,
/// so each part keeps its order and the current tags come first.
pub proof fn lemma_tag_delta_order(current: Seq<Seq<char>>, add: Seq<Seq<char>>, remove: Seq<Seq<char>>)
    ensures
        tag_delta(current, add, remove) == tag_delta(current, Seq::empty(), remove) + tag_delta(add, Seq::empty(), remove),
{
    let keep = |t: Seq<char>| !remove.contains(t);
    Seq::filter_distributes_over_add(current, add, keep);
    assert(current + Seq::<Seq<char>>::empty() =~= current);
    assert(add + Seq::<Seq<char>>::empty() =~= add);
}

/// Every item of a filtered sequence is an item of the original.
proof fn lemma_filter_members_from(s: Seq<Seq<char>>, keep: spec_fn(Seq<char>) -> bool, k: int)
    requires
        0 <= k < s.filter(keep).len(),
    ensures
        s.contains(s.filter(keep)[k]),
    decreases s.len(),
{
    reveal(Seq::filter);
    if s.len() > 0 {
        let rest = s.drop_last().filter(keep);
        if k < rest.len() {
            lemma_filter_members_from(s.drop_last(), keep, k);
            let m = choose|m: int| 0 <= m < s.drop_last().len() && s.drop_last()[m] == rest[k];
            assert(s[m] == s.filter(keep)[k]);
        } else {
            assert(s[s.len() - 1] == s.filter(keep)[k]);
        }
    }
}

/// Filtering a sequence whose items all pass leaves it as it is.
proof fn lemma_filter_all_kept(s: Seq<Seq<char>>, keep: spec_fn(Seq<char>) -> bool)
    requires
        forall|i: int| 0 <= i < s.len() ==> keep(#[trigger] s[i]),
    ensures
        s.filter(keep) == s,
    decreases s.len(),
{
    reveal(Seq::filter);
    if s.len() > 0 {
        lemma_filter_all_kept(s.drop_last(), keep);
        assert(s.drop_last().push(s.last()) =~= s);
    }
}

/// Filtering a sequence whose items all fail leaves nothing.
proof fn lemma_filter_none_kept(s: Seq<Seq<char>>, keep: spec_fn(Seq<char>) -> bool)
    requires
        forall|i: int| 0 <= i < s.len() ==> !keep(#[trigger] s[i]),
    ensures
        s.filter(keep) == Seq::<Seq<char>>::empty(),
    decreases s.len(),
{
    reveal(Seq::filter);
    if s.len() > 0 {
        lemma_filter_none_kept(s.drop_last(), keep);
    }
}

/// Editing an already edited list again with the same arguments changes
/// nothing, provided every added tag is also removed (otherwise each new
/// edit appends the added tags once more, as duplicates are kept).
pub proof fn lemma_tag_delta_idempotent(current: Seq<Seq<char>>, add: Seq<Seq<char>>, remove: Seq<Seq<char>>)
    requires
        forall|t: Seq<char>| add.contains(t) ==> remove.contains(t),
    ensures
        tag_delta(tag_delta(current, add, remove), add, remove) == tag_delta(current, add, remove),
{
    let keep = |t: Seq<char>| !remove.contains(t);
    let once = tag_delta(current, add, remove);
    Seq::filter_distributes_over_add(once, add, keep);
    broadcast use vstd::seq_lib::group_filter_ensures;

    assert forall|i: int| 0 <= i < add.len() implies !keep(#[trigger] add[i]) by {
        assert(add.contains(add[i]));
    }
    lemma_filter_none_kept(add, keep);
    lemma_filter_all_kept(once, keep);
    assert(once + Seq::<Seq<char>>::empty() =~= once);
}

/// Applying the same removals a second time, with nothing added, changes
/// nothing.
pub proof fn lemma_tag_delta_removal_settled(current: Seq<Seq<char>>, add: Seq<Seq<char>>, remove: Seq<Seq<char>>)
    ensures
        tag_delta(tag_delta(current, add, remove), Seq::empty(), remove) == tag_delta(current, add, remove),
{
    let keep = |t: Seq<char>| !remove.contains(t);
    let once = tag_delta(current, add, remove);
    broadcast use vstd::seq_lib::group_filter_ensures;

    lemma_filter_all_kept(once, keep);
    assert(once + Seq::<Seq<char>>::empty() =~= once);
}

} // verus!
