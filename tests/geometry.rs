use blackbox::direction::Direction;
use blackbox::level::{Level, Wall};
use blackbox::position::{Position, LEVEL_HEIGHT, LEVEL_WIDTH};
use blackbox::viewport::{render_order, view_cells};

const ALL_DIRECTIONS: [Direction; 4] = [
    Direction::East,
    Direction::South,
    Direction::West,
    Direction::North,
];

#[test]
fn offsets_are_unit_steps() {
    assert_eq!(Direction::East.offset(), (1, 0));
    assert_eq!(Direction::South.offset(), (0, 1));
    assert_eq!(Direction::West.offset(), (-1, 0));
    assert_eq!(Direction::North.offset(), (0, -1));
}

#[test]
fn turns_follow_the_compass() {
    assert_eq!(Direction::East.left(), Direction::North);
    assert_eq!(Direction::East.right(), Direction::South);
    assert_eq!(Direction::East.rev(), Direction::West);
    assert_eq!(Direction::North.right(), Direction::East);
    assert_eq!(Direction::South.left(), Direction::East);
}

#[test]
fn turns_are_inverse() {
    for d in ALL_DIRECTIONS {
        assert_eq!(d.left().right(), d);
        assert_eq!(d.right().left(), d);
        assert_eq!(d.rev().rev(), d);
        assert_eq!(d.left().left(), d.rev());
    }
}

#[test]
fn move_by_wraps_around() {
    let p = Position { x: 0, y: 0 };
    assert_eq!(p.move_by(Direction::West, 1), Position { x: 19, y: 0 });
    assert_eq!(p.move_by(Direction::North, 1), Position { x: 0, y: 19 });
    assert_eq!(p.move_by(Direction::East, 21), Position { x: 1, y: 0 });
    assert_eq!(p.move_by(Direction::South, -1), Position { x: 0, y: 19 });
    assert_eq!(Position { x: 5, y: 5 }.move_by(Direction::East, -1), Position { x: 4, y: 5 });
}

#[test]
fn move_by_takes_extreme_distances() {
    let p = Position { x: 3, y: 7 };
    let q = p.move_by(Direction::East, isize::MIN);
    assert!(q.x < LEVEL_WIDTH && q.y == 7);
    let expected = (3i128 + isize::MIN as i128).rem_euclid(20) as usize;
    assert_eq!(q.x, expected);
    let r = p.move_by(Direction::North, isize::MAX);
    assert_eq!(r.y, (7i128 - isize::MAX as i128).rem_euclid(20) as usize);
}

#[test]
fn move_round_trip() {
    for d in ALL_DIRECTIONS {
        for n in [-45isize, -1, 0, 1, 3, 19, 20, 77] {
            for (x, y) in [(0usize, 0usize), (5, 5), (19, 19), (7, 12)] {
                let p = Position { x, y };
                assert_eq!(p.move_by(d, n).move_by(d.rev(), n), p);
            }
        }
    }
}

#[test]
fn translate_relative_frame() {
    let p = Position { x: 5, y: 5 };
    // facing North: forward is -y, right is +x
    assert_eq!(p.translate(Direction::North, 1, 2), Position { x: 6, y: 3 });
    // facing East: forward is +x, right is +y
    assert_eq!(p.translate(Direction::East, -2, 3), Position { x: 8, y: 3 });
}

#[test]
fn translate_inverse() {
    for d in ALL_DIRECTIONS {
        for (dx, dy) in [(0isize, 0isize), (1, 2), (-6, 6), (25, -31)] {
            let p = Position { x: 2, y: 17 };
            assert_eq!(p.translate(d, dx, dy).translate(d, -dx, -dy), p);
        }
    }
}

#[test]
fn example_level_layout() {
    let level = Level::example_level();
    for x in 0..LEVEL_WIDTH {
        assert_eq!(level.horiz_walls[x][0], Wall::Solid);
        assert_eq!(level.horiz_walls[x][LEVEL_HEIGHT], Wall::Solid);
        assert_eq!(level.horiz_walls[x][1], Wall::Open);
    }
    for y in 0..LEVEL_HEIGHT {
        assert_eq!(level.vert_walls[0][y], Wall::Solid);
        assert_eq!(level.vert_walls[LEVEL_WIDTH][y], Wall::Solid);
    }
    assert_eq!(level.vert_walls[4][4], Wall::Door);
    assert_eq!(level.vert_walls[4][5], Wall::Open);
}

#[test]
fn wall_towards_reads_the_right_edge() {
    let level = Level::example_level();
    let p = Position { x: 4, y: 4 };
    assert_eq!(level.wall_towards(p, Direction::West), Wall::Door);
    assert_eq!(level.wall_towards(Position { x: 3, y: 4 }, Direction::East), Wall::Door);
    assert_eq!(level.wall_towards(p, Direction::East), Wall::Open);
    assert_eq!(level.wall_towards(Position { x: 0, y: 0 }, Direction::North), Wall::Solid);
    assert_eq!(level.wall_towards(Position { x: 0, y: 0 }, Direction::West), Wall::Solid);
    assert_eq!(level.wall_towards(Position { x: 19, y: 19 }, Direction::East), Wall::Solid);
    assert_eq!(level.wall_towards(Position { x: 19, y: 19 }, Direction::South), Wall::Solid);
    assert_eq!(level.wall_towards(Position { x: 0, y: 0 }, Direction::South), Wall::Open);
}

#[test]
fn wall_lookup_symmetry() {
    let mut level = Level::example_level();
    level.horiz_walls[7][8] = Wall::Door;
    level.vert_walls[12][3] = Wall::Solid;
    for x in 0..LEVEL_WIDTH {
        for y in 0..LEVEL_HEIGHT {
            let p = Position { x, y };
            for d in ALL_DIRECTIONS {
                let interior = match d {
                    Direction::East => x + 1 < LEVEL_WIDTH,
                    Direction::South => y + 1 < LEVEL_HEIGHT,
                    Direction::West => x >= 1,
                    Direction::North => y >= 1,
                };
                if interior {
                    assert_eq!(
                        level.wall_towards(p, d),
                        level.wall_towards(p.move_by(d, 1), d.rev())
                    );
                }
            }
        }
    }
}

#[test]
fn passability() {
    assert!(Wall::Open.is_passable());
    assert!(Wall::Door.is_passable());
    assert!(!Wall::Solid.is_passable());
}

fn depth(c: (isize, isize)) -> isize {
    4 * c.0 * c.0 + (2 * c.1 + 1) * (2 * c.1 + 1)
}

#[test]
fn render_order_paints_far_to_near() {
    let order = render_order();
    assert_eq!(order.len(), 13 * 7);
    assert_eq!(order[0], (-6, 6));
    assert_eq!(order[1], (6, 6));
    assert_eq!(*order.last().unwrap(), (0, 0));
    for w in order.windows(2) {
        assert!(depth(w[0]) >= depth(w[1]));
    }
    for x in -6isize..=6 {
        for y in 0isize..=6 {
            assert_eq!(order.iter().filter(|&&c| c == (x, y)).count(), 1);
        }
    }
}

#[test]
fn view_cells_read_walls_in_the_party_frame() {
    let level = Level::example_level();
    let order = vec![(0isize, 0isize), (-1, 0), (2, 3)];
    // standing at (0, 0) facing East: forward is +x, right is +y
    let cells = view_cells(&level, Position { x: 0, y: 0 }, Direction::East, &order);
    assert_eq!(cells.len(), 3);
    assert_eq!((cells[0].dx, cells[0].dy), (0, 0));
    assert_eq!(cells[0].front, Wall::Open);
    assert_eq!(cells[0].left, Wall::Solid);
    assert_eq!(cells[0].right, Wall::Open);
    // one cell to the left of (0, 0) facing East wraps to (0, 19)
    assert_eq!(cells[1].right, Wall::Solid);
    // facing West from (4, 4), the cell straight ahead of the party is walled by the door
    let cells = view_cells(&level, Position { x: 4, y: 4 }, Direction::West, &vec![(0, 0)]);
    assert_eq!(cells[0].front, Wall::Door);
    assert_eq!(Position::from((3usize, 2usize)), Position { x: 3, y: 2 });
}
