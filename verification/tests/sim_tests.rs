use gridwalk::Coord;
use gridwalk::color::Rgb;
use gridwalk::color::background_color;
use gridwalk::sim::Sim;

fn c(x: i32, y: i32) -> Coord {
    Coord { x, y }
}

fn red() -> Rgb {
    Rgb { r: 235, g: 65, b: 55 }
}

fn blue() -> Rgb {
    Rgb { r: 0, g: 155, b: 240 }
}

#[test]
fn fresh_simulation_state() {
    let sim = Sim::new(0);
    assert_eq!(sim.side(), 2);
    assert_eq!(sim.last_tick_millis(), 0);
    let t1 = sim.trail_color1();
    let m1 = sim.marker1();
    assert_eq!((t1.r, t1.g, t1.b, t1.a), (m1.r, m1.g, m1.b, 15));
    let t2 = sim.trail_color2();
    let m2 = sim.marker2();
    assert_eq!((t2.r, t2.g, t2.b, t2.a), (m2.r, m2.g, m2.b, 15));
    for (pos, next) in [(sim.position1(), sim.planned1()), (sim.position2(), sim.planned2())] {
        assert!(1 <= pos.x && pos.x <= 2 && 1 <= pos.y && pos.y <= 2);
        assert!(1 <= next.x && next.x <= 2 && 1 <= next.y && next.y <= 2);
        assert!(next != pos);
    }
    assert_eq!(sim.cell_color(sim.position2()), sim.trail_color2());
}

#[test]
fn invalid_parts_are_rejected() {
    // Side below the minimum.
    assert!(Sim::from_parts(1, c(1, 1), c(1, 1), c(1, 1), c(1, 1), red(), blue(), 0).is_none());
    // A position off the grid.
    assert!(Sim::from_parts(2, c(3, 1), c(2, 1), c(1, 1), c(1, 2), red(), blue(), 0).is_none());
    // A planned move that is not one step away.
    assert!(Sim::from_parts(3, c(1, 1), c(3, 3), c(2, 2), c(2, 3), red(), blue(), 0).is_none());
    // A planned move equal to the position.
    assert!(Sim::from_parts(2, c(1, 1), c(1, 1), c(2, 2), c(2, 1), red(), blue(), 0).is_none());
}

#[test]
fn meeting_on_one_cell_grows_once_and_repaints() {
    // Both tokens plan into (1,2): the commit collides, the grid grows from
    // 2 to 3 and is repainted to background plus the two fresh trail marks.
    let mut sim = Sim::from_parts(2, c(1, 1), c(1, 2), c(2, 2), c(1, 2), red(), blue(), 0)
        .unwrap();
    let grew = sim.tick();
    assert!(grew);
    assert_eq!(sim.side(), 3);
    let p1 = sim.position1();
    let p2 = sim.position2();
    assert!(1 <= p1.x && p1.x <= 3 && 1 <= p1.y && p1.y <= 3);
    assert!(1 <= p2.x && p2.x <= 3 && 1 <= p2.y && p2.y <= 3);
    let mut marks = 0;
    for x in 1..=3 {
        for y in 1..=3 {
            let color = sim.cell_color(c(x, y));
            if c(x, y) == p2 {
                assert_eq!(color, sim.trail_color2());
            } else if c(x, y) == p1 {
                assert_eq!(color, sim.trail_color1());
            } else {
                assert_eq!(color, background_color());
            }
            if color != background_color() {
                marks += 1;
            }
        }
    }
    assert!(marks <= 2);
}

#[test]
fn crossing_paths_grow_once() {
    // (1,1)->(2,2) and (2,1)->(1,2) cross between the cells.
    let mut sim = Sim::from_parts(2, c(1, 1), c(2, 2), c(2, 1), c(1, 2), red(), blue(), 0)
        .unwrap();
    let grew = sim.tick();
    assert!(grew);
    assert_eq!(sim.side(), 3);
}

#[test]
fn collinear_swap_does_not_grow() {
    // Known edge case: tokens exchanging cells along one diagonal slide
    // through each other without a strict crossing, so nothing grows.
    let mut sim = Sim::from_parts(2, c(1, 1), c(2, 2), c(2, 2), c(1, 1), red(), blue(), 0)
        .unwrap();
    let grew = sim.tick();
    assert!(!grew);
    assert_eq!(sim.side(), 2);
    assert_eq!(sim.position1(), c(2, 2));
    assert_eq!(sim.position2(), c(1, 1));
    assert_eq!(sim.marker1(), red());
    assert_eq!(sim.marker2(), blue());
    assert_eq!(sim.cell_color(c(2, 2)), sim.trail_color1());
    assert_eq!(sim.cell_color(c(1, 1)), sim.trail_color2());
}

#[test]
fn quiet_steps_leave_trails_behind() {
    // (1,1)->(1,2) and (3,3)->(3,2) on a 3-grid: no collision, both trails
    // painted, everything else kept.
    let mut sim = Sim::from_parts(3, c(1, 1), c(1, 2), c(3, 3), c(3, 2), red(), blue(), 0)
        .unwrap();
    let grew = sim.tick();
    assert!(!grew);
    assert_eq!(sim.side(), 3);
    assert_eq!(sim.position1(), c(1, 2));
    assert_eq!(sim.position2(), c(3, 2));
    assert_eq!(sim.cell_color(c(1, 2)), sim.trail_color1());
    assert_eq!(sim.cell_color(c(3, 2)), sim.trail_color2());
    // The pre-tick trails at the starting positions are kept.
    assert_eq!(sim.cell_color(c(1, 1)), sim.trail_color1());
    assert_eq!(sim.cell_color(c(3, 3)), sim.trail_color2());
}

#[test]
fn clock_gates_the_tick() {
    let mut sim = Sim::from_parts(2, c(1, 1), c(2, 2), c(2, 2), c(1, 1), red(), blue(), 0)
        .unwrap();
    // Not enough elapsed time: nothing moves.
    assert!(!sim.advance(500));
    assert_eq!(sim.position1(), c(1, 1));
    assert_eq!(sim.last_tick_millis(), 0);
    // Exactly one period is still not beyond it.
    assert!(!sim.advance(1000));
    assert_eq!(sim.last_tick_millis(), 0);
    // Beyond one period: the tick commits and the clock advances.
    assert!(sim.advance(1001));
    assert_eq!(sim.last_tick_millis(), 1001);
    assert_eq!(sim.position1(), c(2, 2));
}
