use skyracer::fx::SCALE;
use skyracer::vec::{Vec2Fx, Vec3Fx};

#[test]
fn plane_vector_arithmetic() {
    let a = Vec2Fx { x: 3 * SCALE, y: 4 * SCALE };
    let b = Vec2Fx { x: SCALE, y: -2 * SCALE };
    assert_eq!(a.vadd(b), Vec2Fx { x: 4 * SCALE, y: 2 * SCALE });
    assert_eq!(a.vsub(b), Vec2Fx { x: 2 * SCALE, y: 6 * SCALE });
    assert_eq!(a.scale(2 * SCALE), Vec2Fx { x: 6 * SCALE, y: 8 * SCALE });
    // 3*1 + 4*(-2) == -5
    assert_eq!(a.dot(b), -5 * SCALE);
    assert_eq!(a.perp(), Vec2Fx { x: -4 * SCALE, y: 3 * SCALE });
}

#[test]
fn plane_vector_length_and_direction() {
    let a = Vec2Fx { x: 3 * SCALE, y: 4 * SCALE };
    assert_eq!(a.length(), 5 * SCALE);
    let u = a.sgn();
    // 3/5 and 4/5, exactly in fixed point
    assert_eq!(u, Vec2Fx { x: 39321, y: 52428 });
    // the zero vector stays zero instead of dividing by zero
    let z = Vec2Fx { x: 0, y: 0 };
    assert_eq!(z.length(), 0);
    assert_eq!(z.sgn(), z);
}

#[test]
fn space_vector_arithmetic() {
    let a = Vec3Fx { x: SCALE, y: 2 * SCALE, z: 2 * SCALE };
    assert_eq!(a.length(), 3 * SCALE);
    let u = a.sgn();
    assert_eq!(u, Vec3Fx { x: 21845, y: 43690, z: 43690 });
    let b = Vec3Fx { x: 0, y: SCALE, z: 0 };
    assert_eq!(a.vadd(b), Vec3Fx { x: SCALE, y: 3 * SCALE, z: 2 * SCALE });
    assert_eq!(a.vsub(b), Vec3Fx { x: SCALE, y: SCALE, z: 2 * SCALE });
    assert_eq!(b.scale(32768), Vec3Fx { x: 0, y: 32768, z: 0 });
}
