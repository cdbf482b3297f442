//! Which visual, pose and collider of each URDF link is shown, which colour a
//! part gets, and how the parts of a robot are placed.
//!
//! The geometry itself (shapes, poses, colours as numbers) stays with the
//! engine: the functions here work on counts and names and give back indices
//! into the URDF data.

use vstd::prelude::*;

verus! {

/// What is taken from one URDF link: the first visual's geometry and
/// material, the last visual's pose, and the only collider, if the link's
/// physics body has exactly one.
#[derive(Clone, Copy, PartialEq, Eq, Structural, Debug)]
pub struct GeometrySelection {
    /// The index of the link.
    pub index: usize,
    /// The visual whose geometry and material are shown.
    pub geometry: Option<usize>,
    /// The visual whose origin gives the visual pose.
    pub visual_pose: Option<usize>,
    /// The collider of the link's physics body.
    pub collider: Option<usize>,
}

/// The selection for link `i` with `visual_count` visuals and a physics body
/// with `collider_count` colliders.
pub open spec fn selection_of(i: int, visual_count: usize, collider_count: usize) -> GeometrySelection {
    GeometrySelection {
        index: i as usize,
        geometry: if visual_count > 0 { Some(0usize) } else { None },
        visual_pose: if visual_count > 0 { Some((visual_count - 1) as usize) } else { None },
        collider: if collider_count == 1 { Some(0usize) } else { None },
    }
}

/// Selects, link by link, what is shown of a robot: `visual_counts[i]` is the
/// number of visuals of URDF link `i`, `collider_counts[i]` the number of
/// colliders of the physics body built for it.
pub fn extract_robot_geometry(visual_counts: &Vec<usize>, collider_counts: &Vec<usize>) -> (res: Vec<GeometrySelection>)
    requires
        visual_counts.len() <= collider_counts.len(),
    ensures
        res.len() == visual_counts.len(),
        forall|i: int|
            0 <= i < res.len() ==> #[trigger] res@[i] == selection_of(i, visual_counts@[i], collider_counts@[i]),
        forall|i: int|
            0 <= i < res.len() ==> {
                &&& (#[trigger] res@[i]).index == i
                &&& (res@[i].geometry is Some <==> visual_counts@[i] > 0)
                &&& (res@[i].geometry matches Some(v) ==> v == 0)
                &&& (res@[i].visual_pose is Some <==> visual_counts@[i] > 0)
                &&& (res@[i].visual_pose matches Some(v) ==> v + 1 == visual_counts@[i])
                &&& (res@[i].collider is Some <==> collider_counts@[i] == 1)
                &&& (res@[i].collider matches Some(c) ==> c == 0)
            },
{
    let mut res: Vec<GeometrySelection> = Vec::new();
    let n = visual_counts.len();
    for i in 0..n
        invariant
            n == visual_counts.len(),
            visual_counts.len() <= collider_counts.len(),
            res.len() == i,
            forall|j: int|
                0 <= j < i ==> #[trigger] res@[j] == selection_of(j, visual_counts@[j], collider_counts@[j]),
    {
        let visuals = visual_counts[i];
        let colliders = collider_counts[i];
        let geometry = if visuals > 0 { Some(0usize) } else { None };
        let visual_pose = if visuals > 0 { Some(visuals - 1) } else { None };
        let collider = if colliders == 1 { Some(0usize) } else { None };
        res.push(GeometrySelection { index: i, geometry, visual_pose, collider });
    }
    res
}

/// What the colour choice reads of a URDF material: its name and whether it
/// gives a colour.
pub struct MaterialInfo {
    pub name: String,
    pub has_color: bool,
}

/// Where the colour of a part comes from.
#[derive(Clone, Copy, PartialEq, Eq, Structural, Debug)]
pub enum ColorChoice {
    /// The colour of the visual's own material.
    Own,
    /// The colour of the robot's material at this index.
    Named(usize),
    /// The default green.
    Fallback,
}

/// The index of the last robot material named `name`: the one that a map
/// built from the materials in order keeps for that name.
pub open spec fn last_named(materials: Seq<MaterialInfo>, name: Seq<char>) -> Option<int>
    decreases materials.len(),
{
    if materials.len() == 0 {
        None
    } else if materials.last().name@ == name {
        Some(materials.len() - 1)
    } else {
        last_named(materials.drop_last(), name)
    }
}

/// The colour of a part whose visual has `material`, among the robot's
/// `materials`.
pub open spec fn color_choice_of(material: Option<MaterialInfo>, materials: Seq<MaterialInfo>) -> ColorChoice {
    match material {
        None => ColorChoice::Fallback,
        Some(m) => if m.has_color {
            ColorChoice::Own
        } else {
            match last_named(materials, m.name@) {
                Some(j) => if materials[j].has_color {
                    ColorChoice::Named(j as usize)
                } else {
                    ColorChoice::Fallback
                },
                None => ColorChoice::Fallback,
            }
        },
    }
}

proof fn lemma_last_named_is_last(materials: Seq<MaterialInfo>, name: Seq<char>)
    ensures
        match last_named(materials, name) {
            Some(j) => 0 <= j < materials.len() && materials[j].name@ == name && forall|k: int|
                j < k < materials.len() ==> #[trigger] materials[k].name@ != name,
            None => forall|k: int| 0 <= k < materials.len() ==> #[trigger] materials[k].name@ != name,
        },
    decreases materials.len(),
{
    if materials.len() > 0 && materials.last().name@ != name {
        let init = materials.drop_last();
        lemma_last_named_is_last(init, name);
        assert forall|k: int| 0 <= k < materials.len() - 1 implies #[trigger] materials[k] == init[k] by {}
    }
}

/// A colour taken by name is that of the last robot material with the
/// visual's material name, and that material gives a colour; when no robot
/// material has the name, the default colour is used.
pub proof fn lemma_named_color_is_last_of_its_name(material: MaterialInfo, materials: Seq<MaterialInfo>)
    requires
        !material.has_color,
        materials.len() <= usize::MAX,
    ensures
        color_choice_of(Some(material), materials) matches ColorChoice::Named(j) ==> {
            &&& j < materials.len()
            &&& materials[j as int].name@ == material.name@
            &&& materials[j as int].has_color
            &&& forall|k: int| j < k < materials.len() ==> #[trigger] materials[k].name@ != material.name@
        },
        (forall|k: int| 0 <= k < materials.len() ==> #[trigger] materials[k].name@ != material.name@)
            ==> color_choice_of(Some(material), materials) == ColorChoice::Fallback,
{
    lemma_last_named_is_last(materials, material.name@);
    if forall|k: int| 0 <= k < materials.len() ==> #[trigger] materials[k].name@ != material.name@ {
        if let Some(j) = last_named(materials, material.name@) {
            assert(materials[j].name@ != material.name@);
        }
    }
}

/// Chooses the colour of a part: the visual's own material colour if it has
/// one; otherwise the colour of the last robot material of the same name, if
/// that one has a colour; otherwise the default.
pub fn get_color(material: &Option<MaterialInfo>, materials: &Vec<MaterialInfo>) -> (res: ColorChoice)
    ensures
        res == color_choice_of(*material, materials@),
        *material is None ==> res == ColorChoice::Fallback,
        *material matches Some(m) && m.has_color ==> res == ColorChoice::Own,
        res matches ColorChoice::Named(j) ==> *material matches Some(m) && !m.has_color && j
            < materials.len() && materials@[j as int].name@ == m.name@ && materials@[j as int].has_color,
{
    match material {
        None => ColorChoice::Fallback,
        Some(m) => {
            if m.has_color {
                return ColorChoice::Own;
            }
            let mut j = materials.len();
            assert(materials@.take(j as int) =~= materials@);
            while j > 0
                invariant
                    j <= materials.len(),
                    *material == Some(*m),
                    !m.has_color,
                    last_named(materials@, m.name@) == last_named(materials@.take(j as int), m.name@),
                decreases j,
            {
                proof {
                    assert(materials@.take(j as int).drop_last() =~= materials@.take(j - 1));
                }
                if materials[j - 1].name == m.name {
                    assert(materials@.take(j as int).last() == materials@[j - 1]);
                    assert(last_named(materials@, m.name@) == Some((j - 1) as int));
                    if materials[j - 1].has_color {
                        return ColorChoice::Named(j - 1);
                    } else {
                        return ColorChoice::Fallback;
                    }
                }
                j = j - 1;
            }
            ColorChoice::Fallback
        },
    }
}

/// What is taken from a link: its own index; the first visual exactly when
/// it has a visual; the last visual's pose exactly when it has a visual; the
/// only collider exactly when its body has one collider.
pub proof fn lemma_selection_fields(i: usize, visual_count: usize, collider_count: usize)
    ensures
        selection_of(i as int, visual_count, collider_count).index == i,
        selection_of(i as int, visual_count, collider_count).geometry is Some <==> visual_count > 0,
        selection_of(i as int, visual_count, collider_count).geometry matches Some(v) ==> v == 0,
        selection_of(i as int, visual_count, collider_count).visual_pose is Some <==> visual_count > 0,
        selection_of(i as int, visual_count, collider_count).visual_pose matches Some(v) ==> v + 1
            == visual_count,
        selection_of(i as int, visual_count, collider_count).collider is Some <==> collider_count == 1,
        selection_of(i as int, visual_count, collider_count).collider matches Some(c) ==> c == 0,
{
}

/// A visual material that gives a colour is always used; a visual without a
/// material gets the default colour; a colour taken by name comes from a
/// material of that name that gives one.
pub proof fn lemma_own_color_first(material: Option<MaterialInfo>, materials: Seq<MaterialInfo>)
    requires
        materials.len() <= usize::MAX,
    ensures
        material matches Some(m) && m.has_color ==> color_choice_of(material, materials)
            == ColorChoice::Own,
        material is None ==> color_choice_of(material, materials) == ColorChoice::Fallback,
        color_choice_of(material, materials) matches ColorChoice::Named(j) ==> material matches Some(m)
            && !m.has_color && j < materials.len() && materials[j as int].name@ == m.name@
            && materials[j as int].has_color,
{
    if let Some(m) = material {
        if !m.has_color {
            lemma_named_color_is_last_of_its_name(m, materials);
        }
    }
}

} // verus!
