use std::hash::{Hash, Hasher};

use sokudo_core::collider::{Collider, ColliderBody, ColliderId, ConstructionError};
use sokudo_core::contact::{Contact, ContactTest};
use sokudo_core::motion::Motion;
use sokudo_core::particle::Particle;
use sokudo_core::read::{
    ParsedCollider, ParsedColliderBody, ParsedParticle, ParsedRigidBody, ParsedShape,
    ParsedTransform,
};
use sokudo_core::rigid_body::InertiaTensor;
use sokudo_core::scalar::Scalar;
use sokudo_core::vector::{Mat3, Quat, UVec3, Vec3};
use sokudo_core::write::{WriteCollider, WriteTransform};

fn s(x: f32) -> Scalar {
    Scalar::from_bits(x.to_bits())
}

fn v(x: f32, y: f32, z: f32) -> Vec3 {
    Vec3::new(s(x), s(y), s(z))
}

fn quat(x: f32, y: f32, z: f32, w: f32) -> Quat {
    Quat::from_xyzw(s(x), s(y), s(z), s(w))
}

fn parsed_particle(id: u32, locked: bool) -> ParsedCollider {
    ParsedCollider {
        id,
        locked,
        body: ParsedColliderBody::Particle(ParsedParticle {
            position: v(1.0, 2.0, 3.0),
            velocity: v(0.0, -1.0, 0.0),
            mass: s(2.0),
        }),
        position: v(1.0, 2.0, 3.0),
        velocity: v(0.0, -1.0, 0.0),
    }
}

fn parsed_rigid(id: u32, locked: bool) -> ParsedCollider {
    ParsedCollider {
        id,
        locked,
        body: ParsedColliderBody::RigidBody(ParsedRigidBody {
            shape: ParsedShape::Cuboid,
            mass: s(4.0),
            vertex_resolution: UVec3::new(0, 0, 0),
            vertices: vec![v(0.5, 0.5, 0.5)],
            transform: ParsedTransform {
                rotate: quat(0.0, 0.0, 0.38268343, 0.9238795),
                scale: v(2.0, 1.0, 2.0),
            },
        }),
        position: v(-4.0, 0.5, 8.0),
        velocity: v(0.25, 0.0, 0.0),
    }
}

fn motion() -> Motion {
    Motion {
        position: v(10.0, 11.0, 12.0),
        previous_position: v(9.0, 10.0, 11.0),
        velocity: v(1.0, 1.0, 1.0),
        rotation: quat(1.0, 0.0, 0.0, 0.0),
        previous_rotation: quat(0.0, 1.0, 0.0, 0.0),
        angular_velocity: v(0.5, 0.0, 0.0),
        previous_angular_velocity: v(0.0, 0.5, 0.0),
    }
}

#[test]
fn collider_id_new_keeps_a_small_index() {
    assert_eq!(ColliderId::new(0), ColliderId(0));
    assert_eq!(ColliderId::new(7).0, 7);
    assert_eq!(ColliderId::new(u32::MAX as usize).0, u32::MAX);
    assert_eq!(ColliderId::new(7).index(), 7);
    assert_eq!(ColliderId::default(), ColliderId(0));
}

#[test]
fn collider_id_new_cuts_a_large_index_to_32_bits() {
    if usize::BITS > 32 {
        let i = (1u64 << 32) + 5;
        assert_eq!(ColliderId::new(i as usize).0, 5);
        assert_eq!(ColliderId::new(i as usize), ColliderId(i as u32));
    }
}

#[test]
fn collider_ids_are_ordered_by_index() {
    assert!(ColliderId(1) < ColliderId(2));
    assert!(ColliderId(2) == ColliderId(2));
    assert!(ColliderId(3) > ColliderId(2));
}

#[test]
fn collider_from_a_particle() {
    let collider = Collider::from(parsed_particle(17, false));
    assert_eq!(collider.id, 17);
    assert!(!collider.locked);
    assert_eq!(collider.position, v(1.0, 2.0, 3.0));
    assert_eq!(collider.previous_position, v(1.0, 2.0, 3.0));
    assert_eq!(collider.velocity, v(0.0, -1.0, 0.0));
    match collider.body {
        ColliderBody::Particle(particle) => {
            assert_eq!(
                particle,
                Particle {
                    position: v(1.0, 2.0, 3.0),
                    velocity: v(0.0, -1.0, 0.0),
                    mass: s(2.0)
                }
            );
        }
        ColliderBody::Rigid(_) => panic!("a particle was described"),
    }
}

#[test]
fn collider_from_a_rigid_body() {
    let collider = Collider::from(parsed_rigid(3, true));
    assert_eq!(collider.id, 3);
    assert!(collider.locked);
    assert_eq!(collider.position, v(-4.0, 0.5, 8.0));
    assert_eq!(collider.previous_position, collider.position);
    assert_eq!(collider.velocity, v(0.25, 0.0, 0.0));
    match &collider.body {
        ColliderBody::Rigid(rb) => {
            assert_eq!(rb.vertex_resolution, UVec3::one());
            assert_eq!(rb.rotation, quat(0.0, 0.0, 0.38268343, 0.9238795));
            assert_eq!(rb.scale, v(2.0, 1.0, 2.0));
            assert_eq!(rb.vertices, vec![v(0.5, 0.5, 0.5)]);
        }
        ColliderBody::Particle(_) => panic!("a rigid body was described"),
    }
}

#[test]
fn collider_body_from_keeps_the_kind() {
    let body = ColliderBody::from(ParsedColliderBody::Particle(ParsedParticle {
        position: Vec3::zero(),
        velocity: Vec3::zero(),
        mass: s(1.5),
    }));
    assert!(matches!(body, ColliderBody::Particle(_)));
    assert_eq!(body.mass(), s(1.5));
    let particle = Particle::from(ParsedParticle {
        position: v(1.0, 0.0, 0.0),
        velocity: v(0.0, 1.0, 0.0),
        mass: s(1.5),
    });
    assert_eq!(particle.position, v(1.0, 0.0, 0.0));
    assert_eq!(particle.velocity, v(0.0, 1.0, 0.0));
    assert_eq!(particle.mass, s(1.5));
}

#[test]
fn mass_is_that_of_the_body() {
    assert_eq!(Collider::from(parsed_particle(0, false)).body.mass(), s(2.0));
    assert_eq!(Collider::from(parsed_rigid(0, false)).body.mass(), s(4.0));
}

#[test]
fn a_particle_is_written_unturned() {
    let collider = Collider::from(parsed_particle(17, false));
    let written = WriteCollider::from(&collider);
    assert_eq!(written.id, 17);
    assert_eq!(written.transform, WriteTransform::from_translate(v(1.0, 2.0, 3.0)));
    assert_eq!(written.transform.translate, v(1.0, 2.0, 3.0));
    assert_eq!(written.transform.rotate, Quat::identity());
}

#[test]
fn a_rigid_body_is_written_with_its_turn() {
    let described = parsed_rigid(3, false);
    let position = described.position;
    let collider = Collider::from(described);
    let written = WriteCollider::from(&collider);
    assert_eq!(written.id, 3);
    assert_eq!(written.transform.translate, position);
    assert_eq!(written.transform.rotate, quat(0.0, 0.0, 0.38268343, 0.9238795));
}

#[test]
fn motion_of_a_collider() {
    let collider = Collider::from(parsed_rigid(3, false));
    let m = collider.motion();
    assert_eq!(m.position, v(-4.0, 0.5, 8.0));
    assert_eq!(m.previous_position, v(-4.0, 0.5, 8.0));
    assert_eq!(m.velocity, v(0.25, 0.0, 0.0));
    assert_eq!(m.rotation, quat(0.0, 0.0, 0.38268343, 0.9238795));
    assert_eq!(m.previous_rotation, m.rotation);
    assert_eq!(m.angular_velocity, Vec3::zero());
    let p = Collider::from(parsed_particle(1, false)).motion();
    assert_eq!(p.position, v(1.0, 2.0, 3.0));
    assert_eq!(p.rotation, Quat::identity());
    assert_eq!(p.previous_rotation, Quat::identity());
    assert_eq!(p.previous_angular_velocity, Vec3::zero());
}

#[test]
fn advance_leaves_a_locked_collider_as_it_was() {
    let mut rigid = Collider::from(parsed_rigid(3, true));
    let before = rigid.motion();
    rigid.advance(&motion());
    assert_eq!(rigid.motion(), before);
    assert_eq!(rigid.position, v(-4.0, 0.5, 8.0));
    assert_eq!(rigid.previous_position, v(-4.0, 0.5, 8.0));
    assert_eq!(rigid.velocity, v(0.25, 0.0, 0.0));
    match &rigid.body {
        ColliderBody::Rigid(rb) => {
            assert_eq!(rb.rotation, quat(0.0, 0.0, 0.38268343, 0.9238795));
            assert_eq!(rb.angular_velocity, Vec3::zero());
        }
        ColliderBody::Particle(_) => panic!("the kind changed"),
    }
    let mut particle = Collider::from(parsed_particle(5, true));
    particle.advance(&motion());
    assert_eq!(particle.position, v(1.0, 2.0, 3.0));
    assert_eq!(particle.velocity, v(0.0, -1.0, 0.0));
    match particle.body {
        ColliderBody::Particle(body) => assert_eq!(body.position, v(1.0, 2.0, 3.0)),
        ColliderBody::Rigid(_) => panic!("the kind changed"),
    }
}

#[test]
fn moved_keeps_the_motion_of_a_locked_collider() {
    let from = Collider::from(parsed_rigid(3, false)).motion();
    let to = motion();
    assert_eq!(Collider::from(parsed_rigid(3, true)).moved(from, to), from);
    assert_eq!(Collider::from(parsed_rigid(3, false)).moved(from, to), to);
    assert_eq!(Collider::from(parsed_particle(3, true)).moved(from, to), from);
    assert_eq!(Collider::from(parsed_particle(3, false)).moved(from, to), to);
}

#[test]
fn a_locked_collider_accepts_any_motion() {
    let mut bad = motion();
    bad.position = v(f32::NAN, 0.0, 0.0);
    bad.rotation = quat(f32::INFINITY, 0.0, 0.0, 1.0);
    assert!(Collider::from(parsed_rigid(3, true)).accepts(&bad));
    assert!(Collider::from(parsed_particle(3, true)).accepts(&bad));
    assert!(!Collider::from(parsed_rigid(3, false)).accepts(&bad));
}

#[test]
fn contact_test_goes_by_the_kinds() {
    let p = Collider::from(parsed_particle(1, false));
    let r = Collider::from(parsed_rigid(2, true));
    assert_eq!(ContactTest::between(&p, &p), ContactTest::Nothing);
    assert_eq!(ContactTest::between(&p, &r), ContactTest::ParticleInRigid { swapped: false });
    assert_eq!(ContactTest::between(&r, &p), ContactTest::ParticleInRigid { swapped: true });
    assert_eq!(ContactTest::between(&r, &r), ContactTest::RigidInRigid);
}

#[test]
fn what_was_found_from_the_second_is_turned_round() {
    let found = Contact {
        normal: v(0.0, 1.0, 0.0),
        depth: s(0.25),
        anchor1: v(1.0, 0.0, 0.0),
        anchor2: v(0.0, 0.0, 2.0),
    };
    let swapped = ContactTest::ParticleInRigid { swapped: true };
    assert_eq!(swapped.seen_from_first(found), found.flipped());
    assert_eq!(swapped.seen_from_first(found).normal, v(-0.0, -1.0, -0.0));
    for test in [
        ContactTest::ParticleInRigid { swapped: false },
        ContactTest::RigidInRigid,
        ContactTest::Nothing,
    ] {
        assert_eq!(test.seen_from_first(found), found);
    }
}

#[test]
fn advance_moves_a_rigid_body() {
    let mut collider = Collider::from(parsed_rigid(3, false));
    collider.advance(&motion());
    assert_eq!(collider.id, 3);
    assert!(!collider.locked);
    assert_eq!(collider.position, v(10.0, 11.0, 12.0));
    assert_eq!(collider.previous_position, v(9.0, 10.0, 11.0));
    assert_eq!(collider.velocity, v(1.0, 1.0, 1.0));
    assert_eq!(collider.motion(), motion());
    match &collider.body {
        ColliderBody::Rigid(rb) => {
            assert_eq!(rb.rotation, quat(1.0, 0.0, 0.0, 0.0));
            assert_eq!(rb.previous_rotation, quat(0.0, 1.0, 0.0, 0.0));
            assert_eq!(rb.angular_velocity, v(0.5, 0.0, 0.0));
            assert_eq!(rb.previous_angular_velocity, v(0.0, 0.5, 0.0));
            assert_eq!(rb.mass, s(4.0));
            assert_eq!(rb.scale, v(2.0, 1.0, 2.0));
            assert_eq!(rb.vertices, vec![v(0.5, 0.5, 0.5)]);
            assert_eq!(rb.inertia_tensor, InertiaTensor::infinity());
        }
        ColliderBody::Particle(_) => panic!("the kind changed"),
    }
}

#[test]
fn advance_moves_a_particle() {
    let mut collider = Collider::from(parsed_particle(5, false));
    collider.advance(&motion());
    assert_eq!(collider.position, v(10.0, 11.0, 12.0));
    assert_eq!(collider.previous_position, v(9.0, 10.0, 11.0));
    assert_eq!(collider.velocity, v(1.0, 1.0, 1.0));
    match collider.body {
        ColliderBody::Particle(particle) => {
            assert_eq!(particle.position, v(10.0, 11.0, 12.0));
            assert_eq!(particle.velocity, v(1.0, 1.0, 1.0));
            assert_eq!(particle.mass, s(2.0));
        }
        ColliderBody::Rigid(_) => panic!("the kind changed"),
    }
}

#[test]
fn accepts_reads_the_turn_of_a_rigid_body_only() {
    let particle = Collider::from(parsed_particle(5, false));
    let rigid = Collider::from(parsed_rigid(3, false));
    assert!(particle.accepts(&motion()));
    assert!(rigid.accepts(&motion()));
    let mut turn = motion();
    turn.rotation = quat(0.0, f32::NAN, 0.0, 1.0);
    assert!(turn.linear_is_finite());
    assert!(!turn.angular_is_finite());
    assert!(particle.accepts(&turn));
    assert!(!rigid.accepts(&turn));
    let mut spin = motion();
    spin.previous_angular_velocity = v(0.0, 0.0, f32::INFINITY);
    assert!(!rigid.accepts(&spin));
    let mut place = motion();
    place.position = v(f32::INFINITY, 0.0, 0.0);
    assert!(!place.linear_is_finite());
    assert!(!particle.accepts(&place));
    assert!(!rigid.accepts(&place));
    let mut speed = motion();
    speed.velocity = v(0.0, 0.0, f32::NAN);
    assert!(!particle.accepts(&speed));
    let mut before = motion();
    before.previous_position = v(0.0, f32::NEG_INFINITY, 0.0);
    assert!(!rigid.accepts(&before));
}

#[test]
fn gravity_pulls_at_what_is_not_locked() {
    let free = Collider::from(parsed_rigid(1, false));
    let locked = Collider::from(parsed_rigid(1, true));
    let before = v(1.0, 0.0, 0.0);
    let after = v(1.0, -0.1635, 0.0);
    assert_eq!(free.under_gravity(before, after), after);
    assert_eq!(locked.under_gravity(before, after), before);
    assert_eq!(Collider::from(parsed_particle(2, true)).under_gravity(before, after), before);
    assert_eq!(Collider::from(parsed_particle(2, false)).under_gravity(before, after), after);
}

fn hash_of(collider: &Collider) -> u64 {
    let mut hasher = std::collections::hash_map::DefaultHasher::new();
    collider.hash(&mut hasher);
    hasher.finish()
}

#[test]
fn a_collider_is_hashed_by_its_id() {
    let first = Collider::from(parsed_rigid(3, true));
    let second = Collider::from(parsed_particle(3, false));
    let third = Collider::from(parsed_particle(4, false));
    assert_eq!(hash_of(&first), hash_of(&second));
    assert_ne!(hash_of(&second), hash_of(&third));
    let mut hasher = std::collections::hash_map::DefaultHasher::new();
    hasher.write_u32(3);
    assert_eq!(hash_of(&first), hasher.finish());
}

#[test]
fn validate_accepts_a_sound_collider() {
    assert_eq!(Collider::from(parsed_particle(1, false)).validate(), Ok(()));
    assert_eq!(Collider::from(parsed_rigid(2, false)).validate(), Ok(()));
}

#[test]
fn validate_wants_a_positive_mass_of_what_can_move() {
    for mass in [0.0f32, -0.0, -1.0, f32::NAN] {
        let mut described = parsed_particle(9, false);
        described.body = ParsedColliderBody::Particle(ParsedParticle {
            position: Vec3::zero(),
            velocity: Vec3::zero(),
            mass: s(mass),
        });
        assert_eq!(
            Collider::from(described).validate(),
            Err(ConstructionError::NonPositiveMass { collider: 9 })
        );
        let mut locked = parsed_particle(9, true);
        locked.body = ParsedColliderBody::Particle(ParsedParticle {
            position: Vec3::zero(),
            velocity: Vec3::zero(),
            mass: s(mass),
        });
        assert_eq!(Collider::from(locked).validate(), Ok(()));
    }
}

#[test]
fn validate_wants_vertices_of_a_rigid_body() {
    let mut collider = Collider::from(parsed_rigid(4, false));
    if let ColliderBody::Rigid(rb) = &mut collider.body {
        rb.vertices.clear();
    }
    assert_eq!(collider.validate(), Err(ConstructionError::EmptyGeometry { collider: 4 }));
}

#[test]
fn validate_wants_a_finite_tensor_of_a_rigid_body() {
    let mut collider = Collider::from(parsed_rigid(4, true));
    if let ColliderBody::Rigid(rb) = &mut collider.body {
        rb.inertia_tensor = InertiaTensor::from_inverse_tensor(Mat3::from_diagonal(v(
            1.0,
            f32::INFINITY,
            1.0,
        )));
    }
    assert_eq!(collider.validate(), Err(ConstructionError::NonFiniteInertia { collider: 4 }));
    if let ColliderBody::Rigid(rb) = &mut collider.body {
        rb.inertia_tensor.inverse_mut().y_axis.y = s(f32::NAN);
    }
    assert_eq!(collider.validate(), Err(ConstructionError::NonFiniteInertia { collider: 4 }));
}

#[test]
fn a_contact_flipped_is_seen_from_the_other_side() {
    let contact = Contact {
        normal: v(0.0, 1.0, 0.0),
        depth: s(0.25),
        anchor1: v(1.0, 0.0, 0.0),
        anchor2: v(0.0, 0.0, 2.0),
    };
    let flipped = contact.flipped();
    assert_eq!(flipped.normal, v(-0.0, -1.0, -0.0));
    assert_eq!(flipped.depth, s(0.25));
    assert_eq!(flipped.anchor1, v(0.0, 0.0, 2.0));
    assert_eq!(flipped.anchor2, v(1.0, 0.0, 0.0));
    assert_eq!(flipped.flipped(), contact);
}
