use gridwalk::Coord;
use gridwalk::motion::all_dirs;
use gridwalk::motion::legal_moves;
use gridwalk::motion::plan_next;
use gridwalk::motion::random_position;

fn c(x: i32, y: i32) -> Coord {
    Coord { x, y }
}

#[test]
fn eight_directions() {
    let dirs = all_dirs();
    assert_eq!(dirs.len(), 8);
    for d in &dirs {
        assert!((-1..=1).contains(&d.dx));
        assert!((-1..=1).contains(&d.dy));
        assert!(!(d.dx == 0 && d.dy == 0));
    }
}

#[test]
fn corner_of_smallest_grid_has_three_moves() {
    let moves = legal_moves(c(1, 1), 2);
    assert_eq!(moves.len(), 3);
    for d in &moves {
        let x = 1 + d.dx;
        let y = 1 + d.dy;
        assert!(1 <= x && x <= 2 && 1 <= y && y <= 2);
    }
}

#[test]
fn interior_cell_has_all_eight_moves() {
    let moves = legal_moves(c(2, 2), 3);
    assert_eq!(moves.len(), 8);
}

#[test]
fn legal_moves_never_empty() {
    for s in 2..=4 {
        for x in 1..=s {
            for y in 1..=s {
                let moves = legal_moves(c(x, y), s);
                assert!(!moves.is_empty());
                for d in &moves {
                    let nx = x + d.dx;
                    let ny = y + d.dy;
                    assert!(1 <= nx && nx <= s && 1 <= ny && ny <= s);
                }
            }
        }
    }
}

#[test]
fn planned_moves_stay_on_grid_and_step_once() {
    for _ in 0..200 {
        let next = plan_next(c(1, 1), 2);
        assert!(1 <= next.x && next.x <= 2 && 1 <= next.y && next.y <= 2);
        assert!((next.x - 1).abs() <= 1 && (next.y - 1).abs() <= 1);
        assert!(next != c(1, 1));
    }
}

#[test]
fn random_positions_are_in_bounds_and_vary() {
    let mut seen = std::collections::HashSet::new();
    for _ in 0..200 {
        let p = random_position(3);
        assert!(1 <= p.x && p.x <= 3 && 1 <= p.y && p.y <= 3);
        seen.insert((p.x, p.y));
    }
    // 200 independent uniform draws from 9 cells repeat a single cell only
    // with vanishing probability.
    assert!(seen.len() >= 2);
}
