//! The plan by which the visual parts of a robot are spawned and placed,
//! and how drone rotors are numbered among them.

use vstd::prelude::*;

verus! {

/// What the spawning reads of the geometries extracted for one link.
#[derive(Clone, Copy, PartialEq, Eq, Structural, Debug)]
pub struct GeometryGroup {
    /// The index of the link's physics body.
    pub body_index: usize,
    /// How many geometries were extracted for the link.
    pub geometry_count: usize,
    /// How many visual poses were extracted for the link.
    pub visual_count: usize,
    /// Whether forward kinematics gave a transform for the link.
    pub has_link_transform: bool,
}

/// What the spawning reads of a drone descriptor.
pub struct RotorLayout {
    /// The physics bodies that are rotors.
    pub rotor_body_indices: Vec<usize>,
    /// How many rotor positions the descriptor gives.
    pub rotor_position_count: usize,
}

/// How a spawned part is placed.
#[derive(Clone, Copy, PartialEq, Eq, Structural, Debug)]
pub enum Placement {
    /// At the transform of its link (robots without a drone descriptor).
    AtLink,
    /// As the rotor of this number, at the descriptor's rotor position of
    /// that number if it gives one, else at the transform of its link.
    Rotor { rotor_index: usize, at_rotor_position: bool },
    /// Not placed: a part of a drone that is no rotor.
    Unplaced,
}

/// One spawned part: a geometry of a link, and how it is placed.
#[derive(Clone, Copy, PartialEq, Eq, Structural, Debug)]
pub struct PartPlan {
    pub body_index: usize,
    pub geometry_index: usize,
    pub placement: Placement,
}

/// The parts that a group spawns, as (body index, geometry index): each
/// geometry that has a visual pose, if the link has a transform.
pub open spec fn group_parts(g: GeometryGroup) -> Seq<(usize, usize)> {
    if g.has_link_transform {
        let n = if g.geometry_count <= g.visual_count { g.geometry_count } else { g.visual_count };
        Seq::new(n as nat, |k: int| (g.body_index, k as usize))
    } else {
        Seq::empty()
    }
}

/// The parts spawned for all groups, in order.
pub open spec fn spawned_parts(groups: Seq<GeometryGroup>) -> Seq<(usize, usize)>
    decreases groups.len(),
{
    if groups.len() == 0 {
        Seq::empty()
    } else {
        spawned_parts(groups.drop_last()) + group_parts(groups.last())
    }
}

/// Whether a part is a rotor under the given rotor bodies.
pub open spec fn is_rotor_part(part: (usize, usize), rotor_bodies: Seq<usize>) -> bool {
    rotor_bodies.contains(part.0)
}

/// How many of `parts` are rotors.
pub open spec fn rotor_count(parts: Seq<(usize, usize)>, rotor_bodies: Seq<usize>) -> nat
    decreases parts.len(),
{
    if parts.len() == 0 {
        0
    } else {
        rotor_count(parts.drop_last(), rotor_bodies) + if is_rotor_part(parts.last(), rotor_bodies) {
            1nat
        } else {
            0nat
        }
    }
}

/// The placement of part `k` among `parts`, for a drone with the given rotor
/// layout or for another robot.
pub open spec fn placement_at(parts: Seq<(usize, usize)>, k: int, layout: Option<(Seq<usize>, usize)>) -> Placement {
    match layout {
        None => Placement::AtLink,
        Some((rotor_bodies, position_count)) => if is_rotor_part(parts[k], rotor_bodies) {
            let r = rotor_count(parts.take(k), rotor_bodies);
            Placement::Rotor { rotor_index: r as usize, at_rotor_position: r < position_count }
        } else {
            Placement::Unplaced
        },
    }
}

/// The rotor layout as plain sequences.
pub open spec fn layout_view(rotors: Option<RotorLayout>) -> Option<(Seq<usize>, usize)> {
    match rotors {
        None => None,
        Some(l) => Some((l.rotor_body_indices@, l.rotor_position_count)),
    }
}

/// The plan of part `k`.
pub open spec fn part_plan_at(parts: Seq<(usize, usize)>, k: int, layout: Option<(Seq<usize>, usize)>) -> PartPlan {
    PartPlan { body_index: parts[k].0, geometry_index: parts[k].1, placement: placement_at(parts, k, layout) }
}

proof fn lemma_spawned_parts_prefix(groups: Seq<GeometryGroup>, i: int)
    requires
        0 <= i <= groups.len(),
    ensures
        spawned_parts(groups.take(i)).is_prefix_of(spawned_parts(groups)),
    decreases groups.len(),
{
    if i == groups.len() {
        assert(groups.take(i) =~= groups);
    } else {
        assert(groups.drop_last().take(i) =~= groups.take(i));
        lemma_spawned_parts_prefix(groups.drop_last(), i);
    }
}

proof fn lemma_spawned_parts_step(groups: Seq<GeometryGroup>, i: int)
    requires
        0 <= i < groups.len(),
    ensures
        spawned_parts(groups.take(i + 1)) == spawned_parts(groups.take(i)) + group_parts(groups[i]),
{
    assert(groups.take(i + 1).drop_last() =~= groups.take(i));
}

proof fn lemma_rotor_count_step(parts: Seq<(usize, usize)>, n: int, rotor_bodies: Seq<usize>)
    requires
        0 <= n < parts.len(),
    ensures
        rotor_count(parts.take(n + 1), rotor_bodies) == rotor_count(parts.take(n), rotor_bodies) + if is_rotor_part(
            parts[n],
            rotor_bodies,
        ) {
            1nat
        } else {
            0nat
        },
{
    assert(parts.take(n + 1).drop_last() =~= parts.take(n));
}

proof fn lemma_rotor_count_bound(parts: Seq<(usize, usize)>, rotor_bodies: Seq<usize>)
    ensures
        rotor_count(parts, rotor_bodies) <= parts.len(),
    decreases parts.len(),
{
    if parts.len() > 0 {
        lemma_rotor_count_bound(parts.drop_last(), rotor_bodies);
    }
}

/// Whether `v` holds `x`.
fn vec_contains(v: &Vec<usize>, x: usize) -> (res: bool)
    ensures
        res == v@.contains(x),
{
    for i in 0..v.len()
        invariant
            forall|j: int| 0 <= j < i ==> v@[j] != x,
    {
        if v[i] == x {
            return true;
        }
    }
    false
}

/// Plans the parts of a robot: group by group, each geometry that has a
/// visual pose is spawned, if its link has a transform. Without a drone
/// descriptor every part is placed at its link. With one, the parts whose
/// body is a rotor body are numbered as rotors in order, and the others are
/// left unplaced.
pub fn plan_robot_parts(groups: &Vec<GeometryGroup>, rotors: &Option<RotorLayout>) -> (res: Vec<PartPlan>)
    ensures
        res.len() == spawned_parts(groups@).len(),
        forall|k: int|
            0 <= k < res.len() ==> #[trigger] res@[k] == part_plan_at(
                spawned_parts(groups@),
                k,
                layout_view(*rotors),
            ),
{
    let ghost all = spawned_parts(groups@);
    let ghost layout = layout_view(*rotors);
    let mut res: Vec<PartPlan> = Vec::new();
    let mut rotor_index: usize = 0;
    let n = groups.len();
    assert(groups@.take(0) =~= Seq::<GeometryGroup>::empty());
    for gi in 0..n
        invariant
            n == groups.len(),
            all == spawned_parts(groups@),
            layout == layout_view(*rotors),
            res.len() == spawned_parts(groups@.take(gi as int)).len(),
            rotors matches Some(l) ==> rotor_index == rotor_count(
                all.take(res.len() as int),
                l.rotor_body_indices@,
            ),
            forall|k: int| 0 <= k < res.len() ==> #[trigger] res@[k] == part_plan_at(all, k, layout),
    {
        proof {
            lemma_spawned_parts_step(groups@, gi as int);
            lemma_spawned_parts_prefix(groups@, gi + 1);
        }
        let g = groups[gi];
        let ghost base = res.len() as int;
        if g.has_link_transform {
            let count = if g.geometry_count <= g.visual_count { g.geometry_count } else { g.visual_count };
            for k in 0..count
                invariant
                    all == spawned_parts(groups@),
                    layout == layout_view(*rotors),
                    0 <= gi < groups.len(),
                    g == groups@[gi as int],
                    g.has_link_transform,
                    count == (if g.geometry_count <= g.visual_count { g.geometry_count } else { g.visual_count }),
                    base == spawned_parts(groups@.take(gi as int)).len(),
                    spawned_parts(groups@.take(gi + 1)) == spawned_parts(groups@.take(gi as int)) + group_parts(g),
                    spawned_parts(groups@.take(gi + 1)).is_prefix_of(all),
                    res.len() == base + k,
                    rotors matches Some(l) ==> rotor_index == rotor_count(
                        all.take(res.len() as int),
                        l.rotor_body_indices@,
                    ),
                    forall|j: int| 0 <= j < res.len() ==> #[trigger] res@[j] == part_plan_at(all, j, layout),
            {
                let ghost at = res.len() as int;
                proof {
                    let pre = spawned_parts(groups@.take(gi + 1));
                    assert(pre =~= all.subrange(0, pre.len() as int));
                    assert(pre[at] == all[at]);
                    assert(pre[at] == group_parts(g)[k as int]);
                }
                assert(all[at] == (g.body_index, k));
                let mut is_rotor = false;
                let placement = match rotors {
                    None => Placement::AtLink,
                    Some(l) => {
                        proof {
                            lemma_rotor_count_step(all, at, l.rotor_body_indices@);
                            lemma_rotor_count_bound(all.take(at), l.rotor_body_indices@);
                        }
                        if vec_contains(&l.rotor_body_indices, g.body_index) {
                            is_rotor = true;
                            Placement::Rotor {
                                rotor_index,
                                at_rotor_position: rotor_index < l.rotor_position_count,
                            }
                        } else {
                            Placement::Unplaced
                        }
                    },
                };
                res.push(PartPlan { body_index: g.body_index, geometry_index: k, placement });
                if is_rotor {
                    assert(rotor_index <= at);
                    assert(res.len() == at + 1);
                    rotor_index = rotor_index + 1;
                }
            }
        }
    }
    assert(groups@.take(n as int) =~= groups@);
    res
}

proof fn lemma_rotor_count_monotone(parts: Seq<(usize, usize)>, a: int, b: int, rotor_bodies: Seq<usize>)
    requires
        0 <= a <= b <= parts.len(),
    ensures
        rotor_count(parts.take(a), rotor_bodies) <= rotor_count(parts.take(b), rotor_bodies),
        a < b && is_rotor_part(parts[a], rotor_bodies) ==> rotor_count(parts.take(a), rotor_bodies) + 1
            <= rotor_count(parts.take(b), rotor_bodies),
    decreases b - a,
{
    if a < b {
        lemma_rotor_count_step(parts, a, rotor_bodies);
        lemma_rotor_count_monotone(parts, a + 1, b, rotor_bodies);
    }
}

/// Rotors are numbered in the order they are spawned, each with its own
/// number: of two rotor parts, the one spawned first has the smaller number,
/// and every number is below the count of rotor parts.
pub proof fn lemma_rotor_numbers_increase(
    groups: Seq<GeometryGroup>,
    rotor_bodies: Seq<usize>,
    position_count: usize,
    k1: int,
    k2: int,
)
    requires
        spawned_parts(groups).len() <= usize::MAX,
        0 <= k1 < k2 < spawned_parts(groups).len(),
        is_rotor_part(spawned_parts(groups)[k1], rotor_bodies),
        is_rotor_part(spawned_parts(groups)[k2], rotor_bodies),
    ensures
        placement_at(spawned_parts(groups), k1, Some((rotor_bodies, position_count))) matches Placement::Rotor { rotor_index: r1, .. }
            && placement_at(spawned_parts(groups), k2, Some((rotor_bodies, position_count))) matches Placement::Rotor { rotor_index: r2, .. }
            && r1 < r2 && r2 < rotor_count(spawned_parts(groups), rotor_bodies),
{
    let parts = spawned_parts(groups);
    lemma_rotor_count_monotone(parts, k1, k2, rotor_bodies);
    lemma_rotor_count_monotone(parts, k2, parts.len() as int, rotor_bodies);
    lemma_rotor_count_bound(parts.take(k2), rotor_bodies);
    assert(parts.take(parts.len() as int) =~= parts);
}

proof fn lemma_rotor_count_flat(parts: Seq<(usize, usize)>, a: int, b: int, rotor_bodies: Seq<usize>)
    requires
        0 <= a <= b <= parts.len(),
        forall|k: int| a <= k < b ==> !is_rotor_part(#[trigger] parts[k], rotor_bodies),
    ensures
        rotor_count(parts.take(a), rotor_bodies) == rotor_count(parts.take(b), rotor_bodies),
    decreases b - a,
{
    if a < b {
        lemma_rotor_count_step(parts, a, rotor_bodies);
        lemma_rotor_count_flat(parts, a + 1, b, rotor_bodies);
    }
}

/// How each spawned part is placed: at its link when the robot has no drone
/// descriptor; otherwise as a rotor exactly when its body is a rotor body,
/// at the descriptor's rotor position exactly when one is given for its
/// number, and the first rotor is number 0.
pub proof fn lemma_placement_cases(parts: Seq<(usize, usize)>, layout: Option<(Seq<usize>, usize)>, k: int)
    requires
        parts.len() <= usize::MAX,
        0 <= k < parts.len(),
    ensures
        layout is None ==> placement_at(parts, k, layout) == Placement::AtLink,
        layout matches Some((rotor_bodies, _)) ==> (placement_at(parts, k, layout) == Placement::Unplaced
            <==> !rotor_bodies.contains(parts[k].0)),
        layout matches Some((rotor_bodies, _)) ==> (placement_at(parts, k, layout) is Rotor
            <==> rotor_bodies.contains(parts[k].0)),
        layout matches Some((_, position_count)) ==> (placement_at(parts, k, layout) matches Placement::Rotor {
            rotor_index,
            at_rotor_position,
        } ==> at_rotor_position == (rotor_index < position_count)),
        layout matches Some((rotor_bodies, _)) ==> (rotor_bodies.contains(parts[k].0) && (forall|i: int|
            0 <= i < k ==> !is_rotor_part(#[trigger] parts[i], rotor_bodies)) ==> (placement_at(
            parts,
            k,
            layout,
        ) matches Placement::Rotor { rotor_index, .. } && rotor_index == 0)),
{
    if let Some((rotor_bodies, _)) = layout {
        lemma_rotor_count_bound(parts.take(k), rotor_bodies);
        if forall|i: int| 0 <= i < k ==> !is_rotor_part(#[trigger] parts[i], rotor_bodies) {
            lemma_rotor_count_flat(parts, 0, k, rotor_bodies);
            assert(parts.take(0) =~= Seq::<(usize, usize)>::empty());
        }
    }
}

/// Of two rotor parts with no rotor part spawned between them, the later one
/// has the number right after the earlier one's.
pub proof fn lemma_next_rotor_next_number(
    parts: Seq<(usize, usize)>,
    rotor_bodies: Seq<usize>,
    position_count: usize,
    k1: int,
    k2: int,
)
    requires
        parts.len() <= usize::MAX,
        0 <= k1 < k2 < parts.len(),
        is_rotor_part(parts[k1], rotor_bodies),
        is_rotor_part(parts[k2], rotor_bodies),
        forall|i: int| k1 < i < k2 ==> !is_rotor_part(#[trigger] parts[i], rotor_bodies),
    ensures
        placement_at(parts, k1, Some((rotor_bodies, position_count))) matches Placement::Rotor { rotor_index: r1, .. }
            && placement_at(parts, k2, Some((rotor_bodies, position_count))) matches Placement::Rotor { rotor_index: r2, .. }
            && r2 == r1 + 1,
{
    lemma_rotor_count_step(parts, k1, rotor_bodies);
    lemma_rotor_count_flat(parts, k1 + 1, k2, rotor_bodies);
    lemma_rotor_count_bound(parts.take(k2), rotor_bodies);
}

/// The spawned parts are exactly the geometries that have a visual pose, of
/// the links that have a transform: every spawned part is such a geometry of
/// some group, and every such geometry of every group is spawned.
pub proof fn lemma_spawned_parts_exact(groups: Seq<GeometryGroup>)
    ensures
        forall|k: int|
            #![trigger spawned_parts(groups)[k]]
            0 <= k < spawned_parts(groups).len() ==> exists|gi: int|
                0 <= gi < groups.len() && #[trigger] groups[gi].has_link_transform && groups[gi].body_index
                    == spawned_parts(groups)[k].0 && (spawned_parts(groups)[k].1 as int) < groups[gi].geometry_count
                    && (spawned_parts(groups)[k].1 as int) < groups[gi].visual_count,
        forall|gi: int, g: usize|
            0 <= gi < groups.len() && groups[gi].has_link_transform && g < groups[gi].geometry_count && g
                < groups[gi].visual_count ==> #[trigger] spawned_parts(groups).contains((groups[gi].body_index, g)),
    decreases groups.len(),
{
    if groups.len() > 0 {
        let init = groups.drop_last();
        lemma_spawned_parts_exact(init);
        let prev = spawned_parts(init);
        let last = groups.last();
        let cur = spawned_parts(groups);
        assert(cur == prev + group_parts(last));
        assert forall|k: int| #![trigger cur[k]] 0 <= k < cur.len() implies exists|gi: int|
            0 <= gi < groups.len() && #[trigger] groups[gi].has_link_transform && groups[gi].body_index
                == cur[k].0 && (cur[k].1 as int) < groups[gi].geometry_count && (cur[k].1 as int)
                < groups[gi].visual_count by {
            if k < prev.len() {
                assert(cur[k] == prev[k]);
                let gi = choose|gi: int|
                    0 <= gi < init.len() && #[trigger] init[gi].has_link_transform && init[gi].body_index
                        == prev[k].0 && (prev[k].1 as int) < init[gi].geometry_count && (prev[k].1 as int)
                        < init[gi].visual_count;
                assert(groups[gi] == init[gi]);
            } else {
                assert(cur[k] == group_parts(last)[k - prev.len()]);
                assert(groups[groups.len() - 1] == last);
            }
        }
        assert forall|gi: int, g: usize|
            0 <= gi < groups.len() && groups[gi].has_link_transform && g < groups[gi].geometry_count && g
                < groups[gi].visual_count implies #[trigger] cur.contains((groups[gi].body_index, g)) by {
            if gi < groups.len() - 1 {
                assert(init[gi] == groups[gi]);
                assert(prev.contains((init[gi].body_index, g)));
                let w = choose|w: int| 0 <= w < prev.len() && prev[w] == (init[gi].body_index, g);
                assert(cur[w] == prev[w]);
            } else {
                let w = prev.len() + g;
                assert(group_parts(last)[g as int] == (last.body_index, g));
                assert(cur[w] == group_parts(last)[g as int]);
            }
        }
    }
}

} // verus!
