use vstd::prelude::*;
use vstd::std_specs::convert::FromSpecImpl;
use crate::collider::{Collider, ColliderBody, ColliderId, ConstructionError};
use crate::constraint::collision::{
    CollisionConstraint, ParticleCollisionConstraint, RigidBodyCollisionConstraint,
};
use crate::contact::{lemma_flipped_twice, Contact, ContactTest};
use crate::motion::Motion;
use crate::read::{ParsedCollider, ParsedColliderBody, ParsedWorld};
use crate::scalar::Scalar;
use crate::vector::Quat;
use crate::write::{WriteCollider, WriteTransform, WriteWorldState};

verus! {

/// All the colliders of a simulation, in the order that gives each its place.
#[derive(Debug)]
pub struct World {
    /// How many steps the run is to take.
    pub steps: u32,
    pub colliders: Vec<Collider>,
}

/// The pairs that the collider at place `first` makes with each collider
/// after it, among `count` colliders, in rising order of the second place.
pub open spec fn pairs_with(first: int, count: int) -> Seq<(ColliderId, ColliderId)> {
    Seq::new(
        (count - first - 1) as nat,
        |k: int| (ColliderId(first as u32), ColliderId((first + 1 + k) as u32)),
    )
}

/// The pairs whose first place is below `rows`, among `count` colliders:
/// those of place 0, then those of place 1, and so on.
pub open spec fn pairs_below(rows: int, count: int) -> Seq<(ColliderId, ColliderId)>
    decreases rows,
{
    if rows <= 0 {
        Seq::empty()
    } else {
        pairs_below(rows - 1, count) + pairs_with(rows - 1, count)
    }
}

/// The first pair comes before the second in the order of the pairs: its
/// first place is lower, or the first places are the same and its second
/// place is lower.
pub open spec fn pair_precedes(p: (ColliderId, ColliderId), q: (ColliderId, ColliderId)) -> bool {
    p.0.0 < q.0.0 || (p.0.0 == q.0.0 && p.1.0 < q.1.0)
}

/// Where the pair of places `a` and `b` stands among the pairs of `count`
/// colliders.
pub open spec fn pair_index(a: int, b: int, count: int) -> int {
    pairs_below(a, count).len() + (b - a - 1)
}

/// The pairs of the first `rows` places are as many as these rows hold; each
/// names a lower place first and two places of the world; and they stand in
/// strictly rising order.
pub proof fn lemma_pairs_below(rows: int, count: int)
    requires
        0 <= rows <= count <= u32::MAX,
    ensures
        2 * pairs_below(rows, count).len() == rows * (2 * count - rows - 1),
        forall|k: int|
            0 <= k < pairs_below(rows, count).len() ==> {
                let p = #[trigger] pairs_below(rows, count)[k];
                p.0.0 < rows && p.0.0 < p.1.0 < count
            },
        forall|k1: int, k2: int|
            0 <= k1 < k2 < pairs_below(rows, count).len() ==> pair_precedes(
                #[trigger] pairs_below(rows, count)[k1],
                #[trigger] pairs_below(rows, count)[k2],
            ),
    decreases rows,
{
    if rows > 0 {
        lemma_pairs_below(rows - 1, count);
        let head = pairs_below(rows - 1, count);
        let row = pairs_with(rows - 1, count);
        let all = pairs_below(rows, count);
        assert(all == head + row);
        assert(2 * (head.len() + row.len()) == rows * (2 * count - rows - 1)) by (nonlinear_arith)
            requires
                2 * head.len() == (rows - 1) * (2 * count - (rows - 1) - 1),
                row.len() == count - rows,
        ;
        assert(all.len() == head.len() + row.len());
        assert forall|k: int| 0 <= k < all.len() implies {
            let p = #[trigger] all[k];
            p.0.0 < rows && p.0.0 < p.1.0 < count
        } by {
            if k < head.len() {
                assert(all[k] == head[k]);
            } else {
                assert(all[k] == row[k - head.len()]);
            }
        }
        assert forall|k1: int, k2: int| 0 <= k1 < k2 < all.len() implies pair_precedes(
            #[trigger] all[k1],
            #[trigger] all[k2],
        ) by {
            if k2 < head.len() {
                assert(all[k1] == head[k1]);
                assert(all[k2] == head[k2]);
            } else if k1 < head.len() {
                assert(all[k1] == head[k1]);
                assert(all[k2] == row[k2 - head.len()]);
            } else {
                assert(all[k1] == row[k1 - head.len()]);
                assert(all[k2] == row[k2 - head.len()]);
            }
        }
    } else {
        assert(rows * (2 * count - rows - 1) == 0) by (nonlinear_arith)
            requires
                rows == 0,
        ;
    }
}

/// The pairs of fewer rows open the pairs of more rows.
pub proof fn lemma_pairs_grow(fewer: int, more: int, count: int)
    requires
        0 <= fewer <= more <= count,
    ensures
        pairs_below(fewer, count).len() <= pairs_below(more, count).len(),
        pairs_below(more, count).take(pairs_below(fewer, count).len() as int) == pairs_below(
            fewer,
            count,
        ),
    decreases more - fewer,
{
    if fewer < more {
        lemma_pairs_grow(fewer, more - 1, count);
        let head = pairs_below(more - 1, count);
        let all = pairs_below(more, count);
        assert(all == head + pairs_with(more - 1, count));
        assert(all.take(pairs_below(fewer, count).len() as int) =~= head.take(
            pairs_below(fewer, count).len() as int,
        ));
    } else {
        assert(pairs_below(more, count).take(pairs_below(fewer, count).len() as int)
            =~= pairs_below(fewer, count));
    }
}

/// No pair of two different colliders is left out: the pair of places `a`
/// and `b`, the lower first, stands among the pairs of the world.
pub proof fn lemma_pair_is_listed(a: int, b: int, count: int)
    requires
        0 <= a < b < count <= u32::MAX,
    ensures
        0 <= pair_index(a, b, count) < pairs_below(count, count).len(),
        pairs_below(count, count)[pair_index(a, b, count)] == (
            ColliderId(a as u32),
            ColliderId(b as u32),
        ),
{
    let k = pair_index(a, b, count);
    let upto = pairs_below(a + 1, count);
    assert(upto == pairs_below(a, count) + pairs_with(a, count));
    assert(upto[k] == pairs_with(a, count)[b - a - 1]);
    lemma_pairs_grow(a + 1, count, count);
    assert(pairs_below(count, count).take(upto.len() as int)[k] == upto[k]);
}

/// Why a solved frame was not kept.
#[derive(Clone, Copy, Debug, PartialEq, Eq, Structural, Hash)]
pub enum StepError {
    /// The frame does not hold one motion for each collider.
    FrameSize { expected: usize, found: usize },
    /// The motion meant for the collider with this ID holds an infinity or a
    /// NaN. It is the first such collider in the world's order.
    NonFinite { collider: u32 },
}

impl World {
    /// Every collider up to place `end` can be simulated.
    pub open spec fn valid_up_to(colliders: Seq<Collider>, end: int) -> bool {
        forall|j: int| 0 <= j < end ==> (#[trigger] colliders[j]).spec_validate() is Ok
    }

    /// Checks, before any step is taken, that every collider can be
    /// simulated. The error is that of the first collider that cannot.
    pub fn validate(&self) -> (r: Result<(), ConstructionError>)
        ensures
            r is Ok <==> World::valid_up_to(self.colliders@, self.colliders@.len() as int),
            r matches Err(error) ==> exists|i: int|
                {
                    &&& 0 <= i < self.colliders@.len()
                    &&& World::valid_up_to(self.colliders@, i)
                    &&& (#[trigger] self.colliders@[i]).spec_validate() == Err::<
                        (),
                        ConstructionError,
                    >(error)
                },
    {
        let n = self.colliders.len();
        let mut i: usize = 0;
        while i < n
            invariant
                n == self.colliders@.len(),
                i <= n,
                World::valid_up_to(self.colliders@, i as int),
            decreases n - i,
        {
            match self.colliders[i].validate() {
                Ok(()) => {},
                Err(error) => {
                    return Err(error);
                },
            }
            i += 1;
        }
        Ok(())
    }

    /// Every motion up to place `end` is fit to be kept.
    pub open spec fn accepts_up_to(colliders: Seq<Collider>, frame: Seq<Motion>, end: int) -> bool {
        forall|j: int| 0 <= j < end ==> (#[trigger] colliders[j]).spec_accepts(&frame[j])
    }

    /// The colliders with the frame's motions in place of their own.
    pub open spec fn advanced(colliders: Seq<Collider>, frame: Seq<Motion>) -> Seq<Collider> {
        Seq::new(colliders.len(), |i: int| colliders[i].advanced(&frame[i]))
    }

    /// The colliders after a frame was handed to them: with the frame taken
    /// over if it holds one motion for each and every motion is fit, and as
    /// they were if not.
    pub open spec fn stepped(colliders: Seq<Collider>, frame: Seq<Motion>) -> Seq<Collider> {
        if frame.len() == colliders.len() && World::accepts_up_to(
            colliders,
            frame,
            frame.len() as int,
        ) {
            World::advanced(colliders, frame)
        } else {
            colliders
        }
    }

    /// The colliders after one frame after the other was handed to them.
    pub open spec fn after_frames(colliders: Seq<Collider>, frames: Seq<Seq<Motion>>) -> Seq<
        Collider,
    >
        decreases frames.len(),
    {
        if frames.len() == 0 {
            colliders
        } else {
            World::stepped(World::after_frames(colliders, frames.drop_last()), frames.last())
        }
    }

    /// Ends a step by taking over the frame that the solver arrived at.
    ///
    /// `frame` holds, in the world's order, the motion of each collider once
    /// gravity, prediction, the constraints and the velocities of this step
    /// have been worked out. The frame is kept whole or not at all: if it is
    /// not as long as the world, or holds an infinity or a NaN where the
    /// collider reads it, the world stays as it was and the error says why.
    /// A locked collider stays as it was in any case: what the frame says of
    /// it is not read. A world without colliders keeps the empty frame and
    /// does not change.
    pub fn step(&mut self, frame: &Vec<Motion>) -> (r: Result<(), StepError>)
        ensures
            final(self).steps == old(self).steps,
            r is Ok <==> frame@.len() == old(self).colliders@.len() && World::accepts_up_to(
                old(self).colliders@,
                frame@,
                frame@.len() as int,
            ),
            old(self).colliders@.len() == 0 && frame@.len() == 0 ==> r is Ok && *final(self)
                == *old(self),
            final(self).colliders@ == World::stepped(old(self).colliders@, frame@),
            final(self).colliders@.len() == old(self).colliders@.len(),
            forall|i: int|
                0 <= i < old(self).colliders@.len() && (#[trigger] old(self).colliders@[i]).locked
                    ==> final(self).colliders@[i] == old(self).colliders@[i],
            match r {
                Ok(()) => {
                    &&& frame@.len() == old(self).colliders@.len()
                    &&& World::accepts_up_to(old(self).colliders@, frame@, frame@.len() as int)
                    &&& final(self).colliders@ == World::advanced(old(self).colliders@, frame@)
                },
                Err(StepError::FrameSize { expected, found }) => {
                    &&& frame@.len() != old(self).colliders@.len()
                    &&& expected == old(self).colliders@.len()
                    &&& found == frame@.len()
                    &&& *final(self) == *old(self)
                },
                Err(StepError::NonFinite { collider }) => {
                    &&& frame@.len() == old(self).colliders@.len()
                    &&& exists|i: int|
                        {
                            &&& 0 <= i < frame@.len()
                            &&& World::accepts_up_to(old(self).colliders@, frame@, i)
                            &&& !(#[trigger] old(self).colliders@[i]).spec_accepts(&frame@[i])
                            &&& collider == old(self).colliders@[i].id
                        }
                    &&& *final(self) == *old(self)
                },
            },
    {
        let n = self.colliders.len();
        if frame.len() != n {
            return Err(StepError::FrameSize { expected: n, found: frame.len() });
        }
        let mut i: usize = 0;
        while i < n
            invariant
                *self == *old(self),
                n == self.colliders@.len(),
                n == frame@.len(),
                i <= n,
                World::accepts_up_to(self.colliders@, frame@, i as int),
            decreases n - i,
        {
            if !self.colliders[i].accepts(&frame[i]) {
                return Err(StepError::NonFinite { collider: self.colliders[i].id });
            }
            i += 1;
        }
        let mut k: usize = 0;
        while k < n
            invariant
                self.steps == old(self).steps,
                k == 0 ==> *self == *old(self),
                n == old(self).colliders@.len(),
                n == self.colliders@.len(),
                n == frame@.len(),
                k <= n,
                forall|j: int|
                    0 <= j < k ==> self.colliders@[j] == (#[trigger] old(self).colliders@[j]).advanced(
                        &frame@[j],
                    ),
                forall|j: int| k <= j < n ==> self.colliders@[j] == old(self).colliders@[j],
            decreases n - k,
        {
            self.colliders[k].advance(&frame[k]);
            k += 1;
        }
        assert(self.colliders@ =~= World::advanced(old(self).colliders@, frame@));
        Ok(())
    }

    /// The collider at the place that `id` stands for, if there is one.
    pub fn collider(&self, id: ColliderId) -> (r: Option<&Collider>)
        ensures
            r == if id.0 < self.colliders@.len() {
                Some(&self.colliders@[id.0 as int])
            } else {
                None
            },
    {
        let i = id.index();
        if i < self.colliders.len() {
            Some(&self.colliders[i])
        } else {
            None
        }
    }

    /// The colliders that the identifiers stand for, in the order of the
    /// identifiers; nothing if one of them stands for no collider.
    pub fn resolve(&self, ids: &Vec<ColliderId>) -> (r: Option<Vec<&Collider>>)
        ensures
            r is Some <==> forall|i: int| 0 <= i < ids@.len() ==> (#[trigger] ids@[i]).0
                < self.colliders@.len(),
            r matches Some(bodies) ==> {
                &&& bodies@.len() == ids@.len()
                &&& forall|i: int|
                    0 <= i < ids@.len() ==> *(#[trigger] bodies@[i]) == self.colliders@[ids@[i].0 as int]
            },
    {
        let mut bodies: Vec<&Collider> = Vec::new();
        let n = ids.len();
        let mut i: usize = 0;
        while i < n
            invariant
                n == ids@.len(),
                i <= n,
                bodies@.len() == i,
                forall|j: int| 0 <= j < i ==> (#[trigger] ids@[j]).0 < self.colliders@.len(),
                forall|j: int|
                    0 <= j < i ==> *(#[trigger] bodies@[j]) == self.colliders@[ids@[j].0 as int],
            decreases n - i,
        {
            match self.collider(ids[i]) {
                Some(body) => {
                    bodies.push(body);
                },
                None => {
                    return None;
                },
            }
            i += 1;
        }
        Some(bodies)
    }

    /// The constraint that resolves `contact` between the colliders at `a`
    /// and `b`, where `contact` is seen from `a`.
    ///
    /// A particle and a rigid body give a particle constraint, with the
    /// particle first: if `a` is the rigid body, the contact is turned round.
    /// Two rigid bodies give a rigid-body constraint. Two particles give
    /// none, and neither does a collider with itself or an identifier that
    /// stands for no collider.
    pub open spec fn spec_constraint_between(
        &self,
        a: ColliderId,
        b: ColliderId,
        contact: Contact,
        compliance: Scalar,
    ) -> Option<CollisionConstraint> {
        if a.0 >= self.colliders@.len() || b.0 >= self.colliders@.len() || a == b {
            None
        } else {
            let first_rigid = self.colliders@[a.0 as int].body is Rigid;
            let second_rigid = self.colliders@[b.0 as int].body is Rigid;
            if first_rigid && second_rigid {
                Some(
                    CollisionConstraint::RigidBody(
                        RigidBodyCollisionConstraint { a, b, contact, compliance },
                    ),
                )
            } else if second_rigid {
                Some(
                    CollisionConstraint::Particle(
                        ParticleCollisionConstraint { particle: a, rb: b, contact, compliance },
                    ),
                )
            } else if first_rigid {
                Some(
                    CollisionConstraint::Particle(
                        ParticleCollisionConstraint {
                            particle: b,
                            rb: a,
                            contact: contact.spec_flipped(),
                            compliance,
                        },
                    ),
                )
            } else {
                None
            }
        }
    }

    #[verifier::when_used_as_spec(spec_constraint_between)]
    pub fn constraint_between(
        &self,
        a: ColliderId,
        b: ColliderId,
        contact: Contact,
        compliance: Scalar,
    ) -> (r: Option<CollisionConstraint>)
        ensures
            r == self.spec_constraint_between(a, b, contact, compliance),
    {
        if a == b {
            return None;
        }
        let first = match self.collider(a) {
            Some(collider) => collider,
            None => {
                return None;
            },
        };
        let second = match self.collider(b) {
            Some(collider) => collider,
            None => {
                return None;
            },
        };
        match (&first.body, &second.body) {
            (ColliderBody::Rigid(_), ColliderBody::Rigid(_)) => Some(
                CollisionConstraint::RigidBody(
                    RigidBodyCollisionConstraint { a, b, contact, compliance },
                ),
            ),
            (ColliderBody::Particle(_), ColliderBody::Rigid(_)) => Some(
                CollisionConstraint::Particle(
                    ParticleCollisionConstraint { particle: a, rb: b, contact, compliance },
                ),
            ),
            (ColliderBody::Rigid(_), ColliderBody::Particle(_)) => Some(
                CollisionConstraint::Particle(
                    ParticleCollisionConstraint {
                        particle: b,
                        rb: a,
                        contact: contact.flipped(),
                        compliance,
                    },
                ),
            ),
            (ColliderBody::Particle(_), ColliderBody::Particle(_)) => None,
        }
    }

    /// Every pair of two different colliders, each pair once, in the order
    /// in which contacts are looked for and constraints are solved: by
    /// rising first place and, for one first place, by rising second place.
    /// The places must fit the 32 bits of an identifier.
    pub fn collision_pairs(&self) -> (r: Vec<(ColliderId, ColliderId)>)
        requires
            self.colliders@.len() <= u32::MAX,
        ensures
            r@ == pairs_below(self.colliders@.len() as int, self.colliders@.len() as int),
    {
        let n = self.colliders.len();
        let mut pairs: Vec<(ColliderId, ColliderId)> = Vec::new();
        let mut i: usize = 0;
        while i < n
            invariant
                n == self.colliders@.len(),
                n <= u32::MAX,
                i <= n,
                pairs@ == pairs_below(i as int, n as int),
            decreases n - i,
        {
            let ghost before = pairs@;
            let mut j: usize = i + 1;
            while j < n
                invariant
                    n <= u32::MAX,
                    i < j <= n,
                    pairs@ == before + pairs_with(i as int, n as int).take(j - i - 1),
                decreases n - j,
            {
                pairs.push((ColliderId::new(i), ColliderId::new(j)));
                assert(pairs_with(i as int, n as int).take(j + 1 - i - 1) == pairs_with(
                    i as int,
                    n as int,
                ).take(j - i - 1).push(pairs_with(i as int, n as int)[j - i - 1]));
                j += 1;
            }
            assert(pairs_with(i as int, n as int).take(n - i - 1) == pairs_with(i as int, n as int));
            i += 1;
        }
        pairs
    }

    /// The colliders that a description gives, each in its place.
    pub open spec fn colliders_of(parsed: Seq<ParsedCollider>) -> Seq<Collider> {
        parsed.map_values(|p: ParsedCollider| Collider::of(p))
    }

    /// What a snapshot of these colliders holds: one record for each, in
    /// their order.
    pub open spec fn snapshot_of(colliders: Seq<Collider>) -> Seq<WriteCollider> {
        colliders.map_values(|c: Collider| c.written())
    }

    /// What a snapshot of this world holds.
    pub open spec fn written(&self) -> Seq<WriteCollider> {
        World::snapshot_of(self.colliders@)
    }

    /// A snapshot of the world as it stands: the identity and the pose of
    /// each collider, and nothing else.
    pub fn state(&self) -> (r: WriteWorldState)
        ensures
            r.colliders@ == self.written(),
    {
        let mut colliders: Vec<WriteCollider> = Vec::new();
        let n = self.colliders.len();
        let mut i: usize = 0;
        while i < n
            invariant
                n == self.colliders@.len(),
                i <= n,
                colliders@ == self.written().take(i as int),
            decreases n - i,
        {
            colliders.push(WriteCollider::from(&self.colliders[i]));
            assert(self.written().take(i + 1) == self.written().take(i as int).push(
                self.written()[i as int],
            ));
            i += 1;
        }
        WriteWorldState { colliders }
    }
}

/// Whichever way round a pair stands, its constraint holds the contact as it
/// was found. A particle and a rigid body give a particle constraint with
/// the particle first and the contact as seen from the particle; two rigid
/// bodies give a rigid-body constraint in their own order; and where there
/// is nothing to look for, there is no constraint.
pub proof fn lemma_constraint_holds_what_was_found(
    world: World,
    a: ColliderId,
    b: ColliderId,
    found: Contact,
    compliance: Scalar,
)
    requires
        a.0 < world.colliders@.len(),
        b.0 < world.colliders@.len(),
        a != b,
    ensures
        ({
            let test = ContactTest::spec_between(
                &world.colliders@[a.0 as int],
                &world.colliders@[b.0 as int],
            );
            world.spec_constraint_between(a, b, test.spec_seen_from_first(found), compliance)
                == match test {
                ContactTest::Nothing => None::<CollisionConstraint>,
                ContactTest::ParticleInRigid { swapped } => Some(
                    CollisionConstraint::Particle(
                        ParticleCollisionConstraint {
                            particle: if swapped {
                                b
                            } else {
                                a
                            },
                            rb: if swapped {
                                a
                            } else {
                                b
                            },
                            contact: found,
                            compliance,
                        },
                    ),
                ),
                ContactTest::RigidInRigid => Some(
                    CollisionConstraint::RigidBody(
                        RigidBodyCollisionConstraint { a, b, contact: found, compliance },
                    ),
                ),
            }
        }),
{
    lemma_flipped_twice(found);
}

/// The snapshot that follows a step shows a locked collider as it was shown
/// before. It shows any other by its identity and by the place that the
/// frame gives it, with the turn that the frame gives it if it is a rigid
/// body and unturned if it is a particle.
pub proof fn lemma_snapshot_after_step(colliders: Seq<Collider>, frame: Seq<Motion>, i: int)
    requires
        frame.len() == colliders.len(),
        0 <= i < colliders.len(),
    ensures
        World::advanced(colliders, frame)[i].id == colliders[i].id,
        World::advanced(colliders, frame)[i].locked == colliders[i].locked,
        (World::advanced(colliders, frame)[i].body is Rigid) == (colliders[i].body is Rigid),
        colliders[i].locked ==> World::advanced(colliders, frame)[i] == colliders[i],
        !colliders[i].locked ==> World::advanced(colliders, frame)[i].written() == (WriteCollider {
            id: colliders[i].id,
            transform: if colliders[i].body is Rigid {
                WriteTransform { translate: frame[i].position, rotate: frame[i].rotation }
            } else {
                WriteTransform::spec_from_translate(frame[i].position)
            },
        }),
{
}

/// Two sequences of colliders are alike: they are as many and agree, place
/// by place, in identity, in kind, in being locked and in what a snapshot
/// shows of them.
pub open spec fn alike(first: Seq<Collider>, second: Seq<Collider>) -> bool {
    &&& first.len() == second.len()
    &&& forall|i: int|
        0 <= i < first.len() ==> {
            &&& (#[trigger] first[i]).id == second[i].id
            &&& (first[i].body is Rigid) == (second[i].body is Rigid)
            &&& first[i].locked == second[i].locked
            &&& first[i].written() == second[i].written()
        }
}

/// Colliders that are alike show the same snapshot.
pub proof fn lemma_alike_show_the_same(first: Seq<Collider>, second: Seq<Collider>)
    requires
        alike(first, second),
    ensures
        World::snapshot_of(first) == World::snapshot_of(second),
{
    assert(World::snapshot_of(first) =~= World::snapshot_of(second));
}

/// Colliders that are alike are alike again after the same frame was handed
/// to both: it is taken over by both or by neither, and nothing but the
/// frame decides what they show afterwards.
pub proof fn lemma_same_frame_same_snapshot(
    first: Seq<Collider>,
    second: Seq<Collider>,
    frame: Seq<Motion>,
)
    requires
        alike(first, second),
    ensures
        alike(World::stepped(first, frame), World::stepped(second, frame)),
        World::snapshot_of(World::stepped(first, frame)) == World::snapshot_of(
            World::stepped(second, frame),
        ),
{
    let n = frame.len() as int;
    if frame.len() == first.len() {
        if World::accepts_up_to(first, frame, n) {
            assert forall|j: int| 0 <= j < n implies (#[trigger] second[j]).spec_accepts(
                &frame[j],
            ) by {
                assert(first[j].spec_accepts(&frame[j]));
            }
        }
        if World::accepts_up_to(second, frame, n) {
            assert forall|j: int| 0 <= j < n implies (#[trigger] first[j]).spec_accepts(
                &frame[j],
            ) by {
                assert(second[j].spec_accepts(&frame[j]));
            }
        }
        if World::accepts_up_to(first, frame, n) {
            let a = World::advanced(first, frame);
            let b = World::advanced(second, frame);
            assert forall|i: int| 0 <= i < a.len() implies {
                &&& (#[trigger] a[i]).id == b[i].id
                &&& (a[i].body is Rigid) == (b[i].body is Rigid)
                &&& a[i].locked == b[i].locked
                &&& a[i].written() == b[i].written()
            } by {
                lemma_snapshot_after_step(first, frame, i);
                lemma_snapshot_after_step(second, frame, i);
                assert(first[i].id == second[i].id);
            }
        }
    }
    lemma_alike_show_the_same(World::stepped(first, frame), World::stepped(second, frame));
}

/// A run is settled by what it starts from and by the frames handed to it:
/// two worlds that are alike, such as two built from the same description,
/// show the same snapshot after each of the same frames, however many there
/// are.
pub proof fn lemma_same_frames_same_snapshots(
    first: Seq<Collider>,
    second: Seq<Collider>,
    frames: Seq<Seq<Motion>>,
    taken: int,
)
    requires
        alike(first, second),
        0 <= taken <= frames.len(),
    ensures
        alike(
            World::after_frames(first, frames.take(taken)),
            World::after_frames(second, frames.take(taken)),
        ),
        World::snapshot_of(World::after_frames(first, frames.take(taken))) == World::snapshot_of(
            World::after_frames(second, frames.take(taken)),
        ),
    decreases taken,
{
    let so_far = frames.take(taken);
    if taken > 0 {
        lemma_same_frames_same_snapshots(first, second, frames, taken - 1);
        assert(so_far.drop_last() =~= frames.take(taken - 1));
        lemma_same_frame_same_snapshot(
            World::after_frames(first, so_far.drop_last()),
            World::after_frames(second, so_far.drop_last()),
            so_far.last(),
        );
    }
    lemma_alike_show_the_same(
        World::after_frames(first, so_far),
        World::after_frames(second, so_far),
    );
}

/// A world that has just been built shows what was described: each record
/// of its snapshot has the described identity and the described place, and
/// for a rigid body the described turn.
pub proof fn lemma_round_trip(parsed: Seq<ParsedCollider>, i: int)
    requires
        0 <= i < parsed.len(),
    ensures
        World::snapshot_of(World::colliders_of(parsed)).len() == parsed.len(),
        World::snapshot_of(World::colliders_of(parsed))[i].id == parsed[i].id,
        World::snapshot_of(World::colliders_of(parsed))[i].transform.translate
            == parsed[i].position,
        World::snapshot_of(World::colliders_of(parsed))[i].transform.rotate
            == match parsed[i].body {
            ParsedColliderBody::Particle(_) => Quat::spec_identity(),
            ParsedColliderBody::RigidBody(rb) => rb.transform.rotate,
        },
{
}

impl From<ParsedWorld> for World {
    /// The world that a description gives: as many steps to take, and the
    /// described colliders in the described order.
    fn from(value: ParsedWorld) -> (r: World)
        ensures
            r.steps == value.steps,
            r.colliders@ == World::colliders_of(value.colliders@),
    {
        let steps = value.steps;
        let ghost parsed = value.colliders@;
        let mut colliders: Vec<Collider> = Vec::new();
        for p in it: value.colliders.into_iter()
            invariant
                it.seq() == parsed,
                colliders@ == World::colliders_of(parsed.take(it.index())),
        {
            assert(parsed.take(it.index() + 1) == parsed.take(it.index()).push(p));
            colliders.push(Collider::from(p));
        }
        assert(parsed.take(parsed.len() as int) == parsed);
        World { steps, colliders }
    }
}

/// A world holds a vector, which no specification can build: what `from`
/// returns is stated on `from` itself, over the vector's contents.
impl FromSpecImpl<ParsedWorld> for World {
    open spec fn obeys_from_spec() -> bool {
        false
    }

    open spec fn from_spec(value: ParsedWorld) -> World {
        arbitrary()
    }
}

} // verus!
