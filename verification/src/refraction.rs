//! Which objects a ray is inside of as it passes its intersections in order,
//! and hence the media on the two sides of the surface at a hit.
//!
//! Objects are named by identifiers: two intersections with the same
//! identifier belong to the same object.
use vstd::prelude::*;

verus! {

/// `s` with every occurrence of `o` removed.
pub open spec fn remove_all(s: Seq<usize>, o: usize) -> Seq<usize>
    decreases s.len(),
{
    if s.len() == 0 {
        s
    } else if s.last() == o {
        remove_all(s.drop_last(), o)
    } else {
        remove_all(s.drop_last(), o).push(s.last())
    }
}

/// The number of times `o` occurs in `s`.
pub open spec fn occurrences(s: Seq<usize>, o: usize) -> nat
    decreases s.len(),
{
    if s.len() == 0 {
        0
    } else {
        occurrences(s.drop_last(), o) + if s.last() == o {
            1nat
        } else {
            0nat
        }
    }
}

/// Passing a surface of `object`: leave it if the ray is inside it,
/// otherwise enter it (it becomes the innermost container).
pub open spec fn toggled(containers: Seq<usize>, object: usize) -> Seq<usize> {
    if containers.contains(object) {
        remove_all(containers, object)
    } else {
        containers.push(object)
    }
}

/// The objects containing the ray after it has passed the surfaces of
/// `objects` in order, outermost first.
pub open spec fn containers(objects: Seq<usize>) -> Seq<usize>
    decreases objects.len(),
{
    if objects.len() == 0 {
        Seq::empty()
    } else {
        toggled(containers(objects.drop_last()), objects.last())
    }
}

/// The innermost container, if the ray is inside anything.
pub open spec fn innermost(containers: Seq<usize>) -> Option<usize> {
    if containers.len() == 0 {
        None
    } else {
        Some(containers.last())
    }
}

/// The media on both sides of the surface met at intersection `hit`: the
/// object the ray is in just before it (`None`: empty space) and the one it
/// is in just after it.
pub open spec fn media(objects: Seq<usize>, hit: int) -> (Option<usize>, Option<usize>) {
    (innermost(containers(objects.take(hit))), innermost(containers(objects.take(hit + 1))))
}

/// Whether `v` holds `o`.
fn holds(v: &Vec<usize>, o: usize) -> (b: bool)
    ensures
        b == v@.contains(o),
{
    let mut i: usize = 0;
    while i < v.len()
        invariant
            i <= v@.len(),
            forall|j: int| 0 <= j < i ==> v@[j] != o,
        decreases v@.len() - i,
    {
        if v[i] == o {
            assert(v@[i as int] == o);
            return true;
        }
        i += 1;
    }
    false
}

/// Applies `toggled` to the container list.
fn toggle(containers: &mut Vec<usize>, object: usize)
    ensures
        final(containers)@ == toggled(old(containers)@, object),
{
    if holds(containers, object) {
        let mut kept: Vec<usize> = Vec::new();
        let mut i: usize = 0;
        assert(containers@.take(0) =~= Seq::<usize>::empty());
        while i < containers.len()
            invariant
                i <= containers@.len(),
                containers@ == old(containers)@,
                kept@ == remove_all(containers@.take(i as int), object),
            decreases containers@.len() - i,
        {
            if containers[i] != object {
                kept.push(containers[i]);
            }
            i += 1;
            assert(containers@.take(i as int).drop_last() =~= containers@.take(i - 1));
        }
        assert(containers@.take(containers@.len() as int) =~= containers@);
        *containers = kept;
    } else {
        containers.push(object);
    }
}

/// The media on both sides of the surface met at intersection `hit`, where
/// `objects[i]` names the object of the `i`-th intersection along the ray:
/// `(entered from, exited into)`, the innermost containing object just before
/// and just after that intersection, `None` standing for empty space.
pub fn media_at_hit(objects: &Vec<usize>, hit: usize) -> (m: (Option<usize>, Option<usize>))
    requires
        hit < objects@.len(),
    ensures
        m == media(objects@, hit as int),
{
    let mut inside: Vec<usize> = Vec::new();
    let mut i: usize = 0;
    assert(objects@.take(0) =~= Seq::<usize>::empty());
    while i < hit
        invariant
            i <= hit < objects@.len(),
            inside@ == containers(objects@.take(i as int)),
        decreases hit - i,
    {
        toggle(&mut inside, objects[i]);
        i += 1;
        assert(objects@.take(i as int).drop_last() =~= objects@.take(i - 1));
    }
    let before = if inside.len() == 0 {
        None
    } else {
        Some(inside[inside.len() - 1])
    };
    toggle(&mut inside, objects[hit]);
    assert(objects@.take(hit + 1).drop_last() =~= objects@.take(hit as int));
    let after = if inside.len() == 0 {
        None
    } else {
        Some(inside[inside.len() - 1])
    };
    (before, after)
}

/// The media on both sides of the intersection found at `hit` along the
/// ray; when the hit is not among the intersections (`None`), both sides are
/// empty space.
pub fn media_around_hit(objects: &Vec<usize>, hit: Option<usize>) -> (m: (Option<usize>, Option<usize>))
    requires
        hit matches Some(h) ==> h < objects@.len(),
    ensures
        match hit {
            Some(h) => m == media(objects@, h as int),
            None => m == (None::<usize>, None::<usize>),
        },
{
    match hit {
        Some(h) => media_at_hit(objects, h),
        None => (None, None),
    }
}

} // verus!

verus! {

/// What `remove_all` keeps: exactly the elements other than `o`, without
/// introducing repeats.
proof fn lemma_remove_all(s: Seq<usize>, o: usize)
    ensures
        forall|x: usize| #[trigger] remove_all(s, o).contains(x) <==> (s.contains(x) && x != o),
        s.no_duplicates() ==> remove_all(s, o).no_duplicates(),
    decreases s.len(),
{
    broadcast use vstd::seq_lib::lemma_seq_contains_after_push;

    if s.len() > 0 {
        let init = s.drop_last();
        lemma_remove_all(init, o);
        assert(s == init.push(s.last()));
        if s.no_duplicates() {
            assert(init.no_duplicates());
            assert(!init.contains(s.last())) by {
                if init.contains(s.last()) {
                    let j = choose|j: int| 0 <= j < init.len() && init[j] == s.last();
                    assert(s[j] == s[s.len() - 1]);
                }
            }
            if s.last() != o {
                let r = remove_all(init, o);
                assert(!r.contains(s.last()));
                assert forall|i: int, j: int|
                    0 <= i < r.push(s.last()).len() && 0 <= j < r.push(s.last()).len() && i != j
                    implies r.push(s.last())[i] != r.push(s.last())[j] by {
                    if i < r.len() && j < r.len() {
                    } else if i < r.len() {
                        assert(r.contains(r[i]));
                    } else if j < r.len() {
                        assert(r.contains(r[j]));
                    }
                }
            }
        }
    }
}

/// The container list never names an object twice.
pub proof fn lemma_containers_have_no_duplicates(objects: Seq<usize>)
    ensures
        containers(objects).no_duplicates(),
    decreases objects.len(),
{
    if objects.len() > 0 {
        let prev = containers(objects.drop_last());
        lemma_containers_have_no_duplicates(objects.drop_last());
        lemma_remove_all(prev, objects.last());
    }
}

/// The ray is inside an object exactly when it has passed an odd number of
/// that object's surfaces.
pub proof fn lemma_inside_iff_odd_crossings(objects: Seq<usize>, o: usize)
    ensures
        containers(objects).contains(o) <==> occurrences(objects, o) % 2 == 1,
    decreases objects.len(),
{
    if objects.len() > 0 {
        let prev = containers(objects.drop_last());
        lemma_inside_iff_odd_crossings(objects.drop_last(), o);
        lemma_remove_all(prev, objects.last());
        if !prev.contains(objects.last()) {
            assert(prev.push(objects.last()).contains(o) <==> (prev.contains(o) || objects.last() == o)) by {
                if prev.push(objects.last()).contains(o) && objects.last() != o {
                    let j = choose|j: int| 0 <= j < prev.len() + 1 && prev.push(objects.last())[j] == o;
                    assert(prev[j] == o);
                }
                if prev.contains(o) {
                    let j = choose|j: int| 0 <= j < prev.len() && prev[j] == o;
                    assert(prev.push(objects.last())[j] == o);
                }
                if objects.last() == o {
                    assert(prev.push(objects.last())[prev.len() as int] == o);
                }
            }
        }
    }
}

/// The medium a ray leaves at one intersection is the medium it is in
/// when it reaches the next: the exit side of intersection `k` is the
/// entry side of intersection `k + 1`.
pub proof fn lemma_exit_medium_is_next_entry_medium(objects: Seq<usize>, k: int)
    requires
        0 <= k,
        k + 1 < objects.len(),
    ensures
        media(objects, k).1 == media(objects, k + 1).0,
{
}

/// At the first intersection the ray comes from empty space and enters the
/// object hit.
pub proof fn lemma_first_hit_enters_from_space(objects: Seq<usize>)
    requires
        objects.len() > 0,
    ensures
        media(objects, 0) == (None::<usize>, Some(objects[0])),
{
    assert(objects.take(0) =~= Seq::<usize>::empty());
    assert(objects.take(1).drop_last() =~= Seq::<usize>::empty());
    assert(!Seq::<usize>::empty().contains(objects[0]));
}

/// When the ray has passed every object's surface an even number of times
/// (it entered and left each), it is inside nothing.
pub proof fn lemma_all_exited_means_outside(objects: Seq<usize>)
    requires
        forall|o: usize| #[trigger] occurrences(objects, o) % 2 == 0,
    ensures
        containers(objects).len() == 0,
{
    let c = containers(objects);
    if c.len() > 0 {
        lemma_inside_iff_odd_crossings(objects, c[0]);
        assert(c.contains(c[0]));
        assert(occurrences(objects, c[0]) % 2 == 0);
    }
}

} // verus!

verus! {

/// A hit on an object the ray is not inside of enters it: the medium after
/// the hit is that object, whatever the identifiers are.
pub proof fn lemma_entering_hit_leads_into_the_object(objects: Seq<usize>, k: int)
    requires
        0 <= k < objects.len(),
        !containers(objects.take(k)).contains(objects[k]),
    ensures
        media(objects, k).1 == Some(objects[k]),
{
    assert(objects.take(k + 1).drop_last() =~= objects.take(k));
    assert(objects.take(k + 1).last() == objects[k]);
}

/// A hit on an object the ray is inside of leaves it: the medium after the
/// hit is the innermost of the remaining containers, the object itself no
/// longer being one.
pub proof fn lemma_leaving_hit_leads_out_of_the_object(objects: Seq<usize>, k: int)
    requires
        0 <= k < objects.len(),
        containers(objects.take(k)).contains(objects[k]),
    ensures
        media(objects, k).1 == innermost(remove_all(containers(objects.take(k)), objects[k])),
        !containers(objects.take(k + 1)).contains(objects[k]),
{
    assert(objects.take(k + 1).drop_last() =~= objects.take(k));
    assert(objects.take(k + 1).last() == objects[k]);
    lemma_remove_all(containers(objects.take(k)), objects[k]);
}

} // verus!
