//! Setting a level up: what each node of a level's scene becomes, the check
//! that a level holds exactly one ball and one hole, and which meshes still
//! need a collider.
use vstd::prelude::*;

verus! {

/// What a scene node becomes when a level is set up.
#[derive(Clone, Copy, Debug, PartialEq, Eq, Structural)]
pub enum NodeRole {
    /// The node named "ball": the ball.
    Ball,
    /// The node named "hole": the hole.
    Hole,
    /// The node named "speed": a booster.
    Booster,
    /// Any other node with a mesh: collision geometry built from the mesh.
    Collider,
    /// Anything else.
    Ignored,
}

/// Why a level cannot be played.
#[derive(Clone, Copy, Debug, PartialEq, Eq, Structural)]
pub enum SetupError {
    NoBall,
    SeveralBalls,
    NoHole,
    SeveralHoles,
}

pub open spec fn role_of(name: Option<Seq<char>>, has_mesh: bool) -> NodeRole {
    match name {
        Some(n) if n == "ball"@ => NodeRole::Ball,
        Some(n) if n == "hole"@ => NodeRole::Hole,
        Some(n) if n == "speed"@ => NodeRole::Booster,
        _ => if has_mesh { NodeRole::Collider } else { NodeRole::Ignored },
    }
}

pub open spec fn count_role(roles: Seq<NodeRole>, role: NodeRole) -> nat
    decreases roles.len(),
{
    if roles.len() == 0 {
        0
    } else {
        count_role(roles.drop_last(), role) + if roles.last() == role { 1nat } else { 0nat }
    }
}

/// The verdict on a level's nodes: exactly one ball and one hole; the ball
/// is checked first.
pub open spec fn setup_verdict(roles: Seq<NodeRole>) -> Result<(), SetupError> {
    let balls = count_role(roles, NodeRole::Ball);
    let holes = count_role(roles, NodeRole::Hole);
    if balls == 0 {
        Err(SetupError::NoBall)
    } else if balls > 1 {
        Err(SetupError::SeveralBalls)
    } else if holes == 0 {
        Err(SetupError::NoHole)
    } else if holes > 1 {
        Err(SetupError::SeveralHoles)
    } else {
        Ok(())
    }
}

/// The meshes of `pending` (mesh, owner) whose owner has no collider yet,
/// in order.
pub open spec fn to_build(pending: Seq<(u64, u64)>, with_collider: Seq<u64>) -> Seq<u64>
    decreases pending.len(),
{
    if pending.len() == 0 {
        Seq::empty()
    } else {
        let rest = to_build(pending.drop_last(), with_collider);
        if with_collider.contains(pending.last().1) {
            rest
        } else {
            rest.push(pending.last().0)
        }
    }
}

/// Whether two texts hold the same characters.
pub(crate) fn same_text(a: &str, b: &str) -> (r: bool)
    ensures
        r == (a@ == b@),
{
    let a: String = a.to_owned();
    let b: String = b.to_owned();
    a == b
}

/// The role of a scene node, from its name and whether it has a mesh.
pub fn classify_node(name: Option<&str>, has_mesh: bool) -> (r: NodeRole)
    ensures
        r == role_of(
            match name {
                Some(n) => Some(n@),
                None => None,
            },
            has_mesh,
        ),
{
    if let Some(n) = name {
        if same_text(n, "ball") {
            return NodeRole::Ball;
        }
        if same_text(n, "hole") {
            return NodeRole::Hole;
        }
        if same_text(n, "speed") {
            return NodeRole::Booster;
        }
    }
    if has_mesh {
        NodeRole::Collider
    } else {
        NodeRole::Ignored
    }
}

/// Checks that a level's nodes hold exactly one ball and exactly one hole.
pub fn check_level_roles(roles: &Vec<NodeRole>) -> (r: Result<(), SetupError>)
    ensures
        r == setup_verdict(roles@),
        r is Ok <==> count_role(roles@, NodeRole::Ball) == 1 && count_role(roles@, NodeRole::Hole) == 1,
{
    let mut balls: usize = 0;
    let mut holes: usize = 0;
    let mut i: usize = 0;
    while i < roles.len()
        invariant
            i <= roles@.len(),
            balls == count_role(roles@.take(i as int), NodeRole::Ball),
            holes == count_role(roles@.take(i as int), NodeRole::Hole),
            balls <= i,
            holes <= i,
        decreases roles.len() - i,
    {
        proof {
            assert(roles@.take(i + 1).drop_last() =~= roles@.take(i as int));
        }
        match roles[i] {
            NodeRole::Ball => balls = balls + 1,
            NodeRole::Hole => holes = holes + 1,
            _ => {},
        }
        i = i + 1;
    }
    assert(roles@.take(roles@.len() as int) =~= roles@);
    if balls == 0 {
        Err(SetupError::NoBall)
    } else if balls > 1 {
        Err(SetupError::SeveralBalls)
    } else if holes == 0 {
        Err(SetupError::NoHole)
    } else if holes > 1 {
        Err(SetupError::SeveralHoles)
    } else {
        Ok(())
    }
}

fn contains_id(ids: &Vec<u64>, id: u64) -> (r: bool)
    ensures
        r == ids@.contains(id),
{
    let mut i: usize = 0;
    while i < ids.len()
        invariant
            i <= ids@.len(),
            forall|j: int| 0 <= j < i ==> ids@[j] != id,
        decreases ids.len() - i,
    {
        if ids[i] == id {
            assert(ids@[i as int] == id);
            return true;
        }
        i = i + 1;
    }
    false
}

/// The meshes that still need a collider: those of `pending` (mesh, owner)
/// whose owner has none, so that an object gets its collision geometry once.
pub fn colliders_to_build(pending: &Vec<(u64, u64)>, with_collider: &Vec<u64>) -> (r: Vec<u64>)
    ensures
        r@ == to_build(pending@, with_collider@),
{
    let mut r: Vec<u64> = Vec::new();
    let mut i: usize = 0;
    while i < pending.len()
        invariant
            i <= pending@.len(),
            r@ == to_build(pending@.take(i as int), with_collider@),
        decreases pending.len() - i,
    {
        proof {
            assert(pending@.take(i + 1).drop_last() =~= pending@.take(i as int));
        }
        let (mesh, owner) = pending[i];
        if !contains_id(with_collider, owner) {
            r.push(mesh);
        }
        i = i + 1;
    }
    assert(pending@.take(pending@.len() as int) =~= pending@);
    r
}

} // verus!
