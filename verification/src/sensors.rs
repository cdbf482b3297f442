//! Which body parts belong to which robot when sensors are read.

use vstd::prelude::*;

verus! {

/// The indices of the parts whose parent entity has index `robot`, in order.
pub open spec fn parts_with_parent(part_parents: Seq<u32>, robot: u32) -> Seq<usize>
    decreases part_parents.len(),
{
    if part_parents.len() == 0 {
        Seq::empty()
    } else {
        parts_with_parent(part_parents.drop_last(), robot) + if part_parents.last() == robot {
            seq![(part_parents.len() - 1) as usize]
        } else {
            Seq::empty()
        }
    }
}

proof fn lemma_parts_with_parent_step(part_parents: Seq<u32>, robot: u32, n: int)
    requires
        0 <= n < part_parents.len(),
    ensures
        parts_with_parent(part_parents.take(n + 1), robot) == parts_with_parent(part_parents.take(n), robot)
            + if part_parents[n] == robot {
            seq![n as usize]
        } else {
            Seq::empty()
        },
{
    assert(part_parents.take(n + 1).drop_last() =~= part_parents.take(n));
}

/// The parts of one robot: the indices of the parts whose parent entity has
/// the robot's entity index, in order.
pub fn parts_of_robot(robot: u32, part_parents: &Vec<u32>) -> (res: Vec<usize>)
    ensures
        res@ == parts_with_parent(part_parents@, robot),
{
    let mut res: Vec<usize> = Vec::new();
    let n = part_parents.len();
    for i in 0..n
        invariant
            n == part_parents.len(),
            res@ == parts_with_parent(part_parents@.take(i as int), robot),
    {
        proof {
            lemma_parts_with_parent_step(part_parents@, robot, i as int);
        }
        if part_parents[i] == robot {
            res.push(i);
        }
    }
    assert(part_parents@.take(n as int) =~= part_parents@);
    res
}

/// Groups the body parts by robot: `res[r]` lists, in order, the parts whose
/// parent entity has the entity index of robot `r`.
pub fn group_parts_by_robot(robot_entities: &Vec<u32>, part_parents: &Vec<u32>) -> (res: Vec<Vec<usize>>)
    ensures
        res.len() == robot_entities.len(),
        forall|r: int|
            0 <= r < res.len() ==> (#[trigger] res@[r])@ == parts_with_parent(
                part_parents@,
                robot_entities@[r],
            ),
{
    let mut res: Vec<Vec<usize>> = Vec::new();
    for r in 0..robot_entities.len()
        invariant
            res.len() == r,
            forall|q: int|
                0 <= q < r ==> (#[trigger] res@[q])@ == parts_with_parent(
                    part_parents@,
                    robot_entities@[q],
                ),
    {
        res.push(parts_of_robot(robot_entities[r], part_parents));
    }
    res
}

/// A part is listed for a robot exactly when its parent entity is that
/// robot's, and then once, in increasing order of parts.
pub proof fn lemma_parts_with_parent_exact(part_parents: Seq<u32>, robot: u32)
    requires
        part_parents.len() <= usize::MAX,
    ensures
        forall|i: int|
            0 <= i < part_parents.len() ==> (parts_with_parent(part_parents, robot).contains(i as usize)
                <==> part_parents[i] == robot),
        forall|a: int, b: int|
            0 <= a < b < parts_with_parent(part_parents, robot).len() ==> parts_with_parent(
                part_parents,
                robot,
            )[a] < parts_with_parent(part_parents, robot)[b],
        forall|a: int|
            0 <= a < parts_with_parent(part_parents, robot).len() ==> parts_with_parent(
                part_parents,
                robot,
            )[a] < part_parents.len(),
    decreases part_parents.len(),
{
    if part_parents.len() > 0 {
        let init = part_parents.drop_last();
        lemma_parts_with_parent_exact(init, robot);
        let prev = parts_with_parent(init, robot);
        let cur = parts_with_parent(part_parents, robot);
        let last = (part_parents.len() - 1) as usize;
        assert forall|i: int| 0 <= i < part_parents.len() implies (cur.contains(i as usize)
            <==> part_parents[i] == robot) by {
            if i < part_parents.len() - 1 {
                assert(init[i] == part_parents[i]);
                if cur.contains(i as usize) {
                    let w = choose|w: int| 0 <= w < cur.len() && cur[w] == i as usize;
                    if w < prev.len() {
                        assert(prev[w] == cur[w]);
                    }
                }
                if prev.contains(i as usize) {
                    let w = choose|w: int| 0 <= w < prev.len() && prev[w] == i as usize;
                    assert(cur[w] == prev[w]);
                }
            } else {
                if part_parents[i] == robot {
                    assert(cur[cur.len() - 1] == last);
                } else {
                    assert(cur == prev);
                    if cur.contains(i as usize) {
                        let w = choose|w: int| 0 <= w < cur.len() && cur[w] == i as usize;
                        assert(prev[w] < init.len());
                    }
                }
            }
        }
    }
}

} // verus!
