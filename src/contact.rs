//! Contacts between the ball and the course. Collision geometry sits on
//! child meshes, while the gameplay tag (hole, wall, booster, trampoline)
//! sits on their parent object; a contact is resolved through an explicit
//! table from geometry to owner, and from owner to tag.
use crate::ball::{MAX_DT, MAX_FORCE};
use crate::fixed::{abs, added, fmul, lemma_fmul_bound, scaled, within, Vec3, MAX_COORD, SCALE};
use vstd::prelude::*;

verus! {

/// Contact impulse above which a wall contact makes a knock (0.5 units).
pub const KNOCK_IMPULSE: i64 = 500;

/// Most contacts that one frame may report.
pub const MAX_CONTACTS: usize = 1_000_000;

/// A booster pad: pushes the ball along its backward axis while touched.
#[derive(Clone, Copy, Debug, PartialEq, Eq, Structural)]
pub struct Booster {
    /// Speed added per second of contact.
    pub force: i64,
}

impl Default for Booster {
    fn default() -> (r: Booster)
        ensures
            r == (Booster { force: 50_000 }),
    {
        Booster { force: 50_000 }
    }
}

/// A trampoline: throws the ball along its up axis on contact.
#[derive(Clone, Copy, Debug, PartialEq, Eq, Structural)]
pub struct Trampoline {
    /// Speed added on each contact.
    pub force: i64,
}

impl Default for Trampoline {
    fn default() -> (r: Trampoline)
        ensures
            r == (Trampoline { force: 25_000 }),
    {
        Trampoline { force: 25_000 }
    }
}

/// The gameplay tag that an object carries. Boosters and trampolines carry
/// the unit axis along which they push: backward for a booster, up for a
/// trampoline.
#[derive(Clone, Copy, Debug, PartialEq, Eq, Structural)]
pub enum Tag {
    Hole,
    Wall,
    Booster { force: i64, direction: Vec3 },
    Trampoline { force: i64, direction: Vec3 },
}

/// What a contact means for the game.
#[derive(Clone, Copy, Debug, PartialEq, Eq, Structural)]
pub enum ContactKind {
    Hole,
    Wall,
    Booster { force: i64, direction: Vec3 },
    Trampoline { force: i64, direction: Vec3 },
    Other,
}

/// The first value stored under `k`, if any.
pub open spec fn lookup<V>(s: Seq<(u64, V)>, k: u64) -> Option<V>
    decreases s.len(),
{
    if s.len() == 0 {
        None
    } else if s[0].0 == k {
        Some(s[0].1)
    } else {
        lookup(s.subrange(1, s.len() as int), k)
    }
}

pub open spec fn tag_wf(t: Tag) -> bool {
    match t {
        Tag::Booster { force, direction } => 0 <= force <= MAX_FORCE && within(direction, SCALE as int),
        Tag::Trampoline { force, direction } => 0 <= force <= MAX_FORCE && within(
            direction,
            SCALE as int,
        ),
        _ => true,
    }
}

pub open spec fn kind_of_tag(t: Option<Tag>) -> ContactKind {
    match t {
        Some(Tag::Hole) => ContactKind::Hole,
        Some(Tag::Wall) => ContactKind::Wall,
        Some(Tag::Booster { force, direction }) => ContactKind::Booster { force, direction },
        Some(Tag::Trampoline { force, direction }) => ContactKind::Trampoline { force, direction },
        None => ContactKind::Other,
    }
}

/// Which object owns each piece of collision geometry, and which tag each
/// object carries. When a key is listed twice, its first entry counts.
#[derive(Debug)]
pub struct ContactTable {
    pub parents: Vec<(u64, u64)>,
    pub tags: Vec<(u64, Tag)>,
}

/// The kind of a contact with `geometry`: the tag of its owner, or `Other`
/// when it has no owner or the owner carries no tag.
pub open spec fn resolve_spec(parents: Seq<(u64, u64)>, tags: Seq<(u64, Tag)>, geometry: u64) -> ContactKind {
    match lookup(parents, geometry) {
        Some(owner) => kind_of_tag(lookup(tags, owner)),
        None => ContactKind::Other,
    }
}

/// The collider that a collision pair holds besides the ball, if the ball
/// is in the pair.
pub open spec fn other_of(pair: (u64, u64), ball: u64) -> Option<u64> {
    if pair.0 == ball {
        Some(pair.1)
    } else if pair.1 == ball {
        Some(pair.0)
    } else {
        None
    }
}

pub open spec fn pair_kind(table: ContactTable, pair: (u64, u64), ball: u64) -> ContactKind {
    match other_of(pair, ball) {
        Some(o) => resolve_spec(table.parents@, table.tags@, o),
        None => ContactKind::Other,
    }
}

/// A contact point between the ball and another collider, with the
/// impulse that the physics engine applied there.
#[derive(Clone, Copy, Debug, PartialEq, Eq, Structural)]
pub struct ContactPoint {
    pub collider1: u64,
    pub collider2: u64,
    pub impulse: i64,
}

/// The change of velocity that one contact gives over a frame of `dt`:
/// a booster pushes along its axis by `force` per second, a trampoline
/// adds `force` along its axis at once, anything else adds nothing.
pub open spec fn contact_delta(kind: ContactKind, dt: int) -> Vec3 {
    match kind {
        ContactKind::Booster { force, direction } => scaled(direction, fmul(dt, force as int)),
        ContactKind::Trampoline { force, direction } => scaled(direction, force as int),
        _ => Vec3 { x: 0, y: 0, z: 0 },
    }
}

/// The velocity after the contacts in `pairs`, in order.
pub open spec fn velocity_after(
    v: Vec3,
    table: ContactTable,
    ball: u64,
    pairs: Seq<(u64, u64)>,
    dt: int,
) -> Vec3
    decreases pairs.len(),
{
    if pairs.len() == 0 {
        v
    } else {
        added(
            velocity_after(v, table, ball, pairs.drop_last(), dt),
            contact_delta(pair_kind(table, pairs.last(), ball), dt),
        )
    }
}

fn lookup_parent(s: &Vec<(u64, u64)>, k: u64) -> (r: Option<u64>)
    ensures
        r == lookup(s@, k),
{
    let mut i: usize = 0;
    assert(s@.subrange(0, s@.len() as int) =~= s@);
    while i < s.len()
        invariant
            i <= s@.len(),
            lookup(s@, k) == lookup(s@.subrange(i as int, s@.len() as int), k),
        decreases s.len() - i,
    {
        proof {
            let sub = s@.subrange(i as int, s@.len() as int);
            assert(sub.subrange(1, sub.len() as int) =~= s@.subrange(i + 1, s@.len() as int));
        }
        if s[i].0 == k {
            return Some(s[i].1);
        }
        i = i + 1;
    }
    None
}

fn lookup_tag(s: &Vec<(u64, Tag)>, k: u64) -> (r: Option<Tag>)
    ensures
        r == lookup(s@, k),
{
    let mut i: usize = 0;
    assert(s@.subrange(0, s@.len() as int) =~= s@);
    while i < s.len()
        invariant
            i <= s@.len(),
            lookup(s@, k) == lookup(s@.subrange(i as int, s@.len() as int), k),
        decreases s.len() - i,
    {
        proof {
            let sub = s@.subrange(i as int, s@.len() as int);
            assert(sub.subrange(1, sub.len() as int) =~= s@.subrange(i + 1, s@.len() as int));
        }
        if s[i].0 == k {
            return Some(s[i].1);
        }
        i = i + 1;
    }
    None
}

proof fn lemma_lookup_in<V>(s: Seq<(u64, V)>, k: u64, p: spec_fn(V) -> bool)
    requires
        forall|i: int| 0 <= i < s.len() ==> p(#[trigger] s[i].1),
    ensures
        lookup(s, k) matches Some(v) ==> p(v),
    decreases s.len(),
{
    if s.len() > 0 && s[0].0 != k {
        let t = s.subrange(1, s.len() as int);
        assert forall|i: int| 0 <= i < t.len() implies p(#[trigger] t[i].1) by {
            assert(t[i] == s[i + 1]);
        }
        lemma_lookup_in(t, k, p);
    }
}

/// The other collider of a collision pair, if the ball is in it.
pub fn other_collider(pair: (u64, u64), ball: u64) -> (r: Option<u64>)
    ensures
        r == other_of(pair, ball),
{
    if pair.0 == ball {
        Some(pair.1)
    } else if pair.1 == ball {
        Some(pair.0)
    } else {
        None
    }
}

impl ContactTable {
    pub open spec fn wf(&self) -> bool {
        forall|i: int| 0 <= i < self.tags@.len() ==> tag_wf(#[trigger] self.tags@[i].1)
    }

    pub fn new() -> (r: ContactTable)
        ensures
            r.parents@ == Seq::<(u64, u64)>::empty(),
            r.tags@ == Seq::<(u64, Tag)>::empty(),
    {
        ContactTable { parents: Vec::new(), tags: Vec::new() }
    }

    /// Records that `geometry` belongs to the object `owner`.
    pub fn add_parent(&mut self, geometry: u64, owner: u64)
        ensures
            final(self).parents@ == old(self).parents@.push((geometry, owner)),
            final(self).tags@ == old(self).tags@,
    {
        self.parents.push((geometry, owner));
    }

    /// Records that the object `owner` carries `tag`.
    pub fn add_tag(&mut self, owner: u64, tag: Tag)
        ensures
            final(self).tags@ == old(self).tags@.push((owner, tag)),
            final(self).parents@ == old(self).parents@,
    {
        self.tags.push((owner, tag));
    }

    /// What a contact with `geometry` means: the tag that its owner carries.
    pub fn resolve_contact(&self, geometry: u64) -> (r: ContactKind)
        requires
            self.wf(),
        ensures
            r == resolve_spec(self.parents@, self.tags@, geometry),
            lookup(self.parents@, geometry) matches Some(owner) && lookup(self.tags@, owner) == Some(
                Tag::Hole,
            ) ==> r == ContactKind::Hole,
            lookup(self.parents@, geometry) matches Some(owner) && lookup(self.tags@, owner) is None
                ==> r == ContactKind::Other,
            lookup(self.parents@, geometry) is None ==> r == ContactKind::Other,
            match r {
                ContactKind::Booster { force, direction } => 0 <= force <= MAX_FORCE && within(direction, SCALE as int),
                ContactKind::Trampoline { force, direction } => 0 <= force <= MAX_FORCE && within(direction, SCALE as int),
                _ => true,
            },
    {
        let owner = match lookup_parent(&self.parents, geometry) {
            Some(o) => o,
            None => return ContactKind::Other,
        };
        let tag = lookup_tag(&self.tags, owner);
        proof {
            lemma_lookup_in(self.tags@, owner, |t: Tag| tag_wf(t));
        }
        match tag {
            Some(Tag::Hole) => ContactKind::Hole,
            Some(Tag::Wall) => ContactKind::Wall,
            Some(Tag::Booster { force, direction }) => ContactKind::Booster { force, direction },
            Some(Tag::Trampoline { force, direction }) => ContactKind::Trampoline { force, direction },
            None => ContactKind::Other,
        }
    }

    /// Whether any collision that started this frame puts the ball in the hole.
    pub fn hole_contact(&self, ball: u64, started: &Vec<(u64, u64)>) -> (r: bool)
        requires
            self.wf(),
        ensures
            r == exists|i: int|
                0 <= i < started@.len() && #[trigger] pair_kind(*self, started@[i], ball)
                    == ContactKind::Hole,
    {
        let mut i: usize = 0;
        while i < started.len()
            invariant
                self.wf(),
                i <= started@.len(),
                forall|j: int| 0 <= j < i ==> #[trigger] pair_kind(*self, started@[j], ball) != ContactKind::Hole,
            decreases started.len() - i,
        {
            let kind = match other_collider(started[i], ball) {
                Some(o) => self.resolve_contact(o),
                None => ContactKind::Other,
            };
            if kind == ContactKind::Hole {
                assert(pair_kind(*self, started@[i as int], ball) == ContactKind::Hole);
                return true;
            }
            i = i + 1;
        }
        false
    }

    /// Whether the ball hit a wall hard enough to make a knock: some
    /// contact point with a wall took an impulse above `KNOCK_IMPULSE`.
    pub fn knock(&self, ball: u64, points: &Vec<ContactPoint>) -> (r: bool)
        requires
            self.wf(),
        ensures
            r == exists|i: int|
                0 <= i < points@.len() && #[trigger] pair_kind(*self, (points@[i].collider1, points@[i].collider2), ball)
                    == ContactKind::Wall && abs(points@[i].impulse as int) > KNOCK_IMPULSE,
    {
        let mut i: usize = 0;
        while i < points.len()
            invariant
                self.wf(),
                i <= points@.len(),
                forall|j: int|
                    0 <= j < i ==> !(#[trigger] pair_kind(*self, (points@[j].collider1, points@[j].collider2), ball)
                        == ContactKind::Wall && abs(points@[j].impulse as int) > KNOCK_IMPULSE),
            decreases points.len() - i,
        {
            let p = points[i];
            let kind = match other_collider((p.collider1, p.collider2), ball) {
                Some(o) => self.resolve_contact(o),
                None => ContactKind::Other,
            };
            if kind == ContactKind::Wall && (p.impulse > KNOCK_IMPULSE || p.impulse < -KNOCK_IMPULSE) {
                assert(pair_kind(*self, (points@[i as int].collider1, points@[i as int].collider2), ball) == ContactKind::Wall);
                return true;
            }
            i = i + 1;
        }
        false
    }

    /// The ball's velocity after the boosters and trampolines that it
    /// touches this frame have acted on it.
    pub fn apply_contact_forces(&self, ball: u64, velocity: &Vec3, contacts: &Vec<(u64, u64)>, dt: i64) -> (r: Vec3)
        requires
            self.wf(),
            within(*velocity, MAX_COORD as int),
            contacts@.len() <= MAX_CONTACTS,
            0 <= dt <= MAX_DT,
        ensures
            r == velocity_after(*velocity, *self, ball, contacts@, dt as int),
    {
        let mut v = *velocity;
        let mut i: usize = 0;
        while i < contacts.len()
            invariant
                self.wf(),
                i <= contacts@.len() <= MAX_CONTACTS,
                0 <= dt <= MAX_DT,
                within(*velocity, MAX_COORD as int),
                v == velocity_after(*velocity, *self, ball, contacts@.take(i as int), dt as int),
                within(v, MAX_COORD * (i + 1)),
            decreases contacts.len() - i,
        {
            let kind = match other_collider(contacts[i], ball) {
                Some(o) => self.resolve_contact(o),
                None => ContactKind::Other,
            };
            let delta = contact_velocity_delta(kind, dt);
            proof {
                assert(contacts@.take(i + 1).drop_last() =~= contacts@.take(i as int));
                assert(MAX_COORD * (i + 2) <= MAX_COORD * (MAX_CONTACTS + 1)) by (nonlinear_arith)
                    requires
                        i < MAX_CONTACTS,
                ;
            }
            v = v.add(&delta);
            i = i + 1;
        }
        assert(contacts@.take(contacts@.len() as int) =~= contacts@);
        v
    }
}

/// The change of velocity that one contact gives over a frame of `dt`.
pub fn contact_velocity_delta(kind: ContactKind, dt: i64) -> (r: Vec3)
    requires
        0 <= dt <= MAX_DT,
        match kind {
            ContactKind::Booster { force, direction } => 0 <= force <= MAX_FORCE && within(direction, SCALE as int),
            ContactKind::Trampoline { force, direction } => 0 <= force <= MAX_FORCE && within(direction, SCALE as int),
            _ => true,
        },
    ensures
        r == contact_delta(kind, dt as int),
        within(r, MAX_COORD as int),
{
    match kind {
        ContactKind::Booster { force, direction } => {
            proof {
                lemma_fmul_bound(dt as int, force as int, MAX_DT as int, MAX_FORCE as int);
            }
            let push = crate::fixed::fixed_mul(dt, force);
            proof {
                crate::fixed::lemma_scaled_axis(direction, push as int);
            }
            direction.scale(push)
        },
        ContactKind::Trampoline { force, direction } => {
            proof {
                crate::fixed::lemma_scaled_axis(direction, force as int);
            }
            direction.scale(force)
        },
        _ => Vec3::zero(),
    }
}

} // verus!
