use gridwalk::Coord;
use gridwalk::collision::ccw;
use gridwalk::collision::collided;
use gridwalk::collision::intersect;

fn c(x: i32, y: i32) -> Coord {
    Coord { x, y }
}

#[test]
fn ccw_orientation() {
    // (1,1) -> (2,1) -> (2,2) turns counter-clockwise; the mirror does not.
    assert!(ccw(c(1, 1), c(2, 1), c(2, 2)));
    assert!(!ccw(c(1, 1), c(2, 2), c(2, 1)));
    // Collinear triples are not a strict turn in either order.
    assert!(!ccw(c(1, 1), c(2, 2), c(3, 3)));
    assert!(!ccw(c(3, 3), c(2, 2), c(1, 1)));
}

#[test]
fn same_cell_collides() {
    // Both tokens land on (2,2).
    assert!(collided(c(1, 1), c(2, 2), c(5, 5), c(2, 2)));
}

#[test]
fn crossing_collides() {
    // (1,1)->(3,3) and (1,3)->(3,1) cross at (2,2).
    assert!(intersect(c(1, 1), c(3, 3), c(1, 3), c(3, 1)));
    assert!(collided(c(1, 1), c(3, 3), c(1, 3), c(3, 1)));
}

#[test]
fn non_crossing_does_not_collide() {
    // (1,1)->(1,2) and (3,3)->(3,2) are far apart.
    assert!(!collided(c(1, 1), c(1, 2), c(3, 3), c(3, 2)));
}

#[test]
fn collinear_swap_is_not_detected() {
    // Known edge case of the strict orientation test: two tokens sliding
    // through each other along the same diagonal do not register.
    assert!(!intersect(c(1, 1), c(2, 2), c(2, 2), c(1, 1)));
    assert!(!collided(c(1, 1), c(2, 2), c(2, 2), c(1, 1)));
}

#[test]
fn collision_is_symmetric() {
    let cases = [
        (c(1, 1), c(2, 2), c(5, 5), c(2, 2)),
        (c(1, 1), c(3, 3), c(1, 3), c(3, 1)),
        (c(1, 1), c(1, 2), c(3, 3), c(3, 2)),
        (c(1, 1), c(2, 2), c(2, 2), c(1, 1)),
        (c(2, 3), c(3, 4), c(4, 1), c(3, 2)),
    ];
    for (a, a2, b, b2) in cases {
        assert_eq!(collided(a, a2, b, b2), collided(b, b2, a, a2));
    }
}
