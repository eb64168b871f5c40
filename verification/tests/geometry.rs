use job_tracker::geometry::{
    Constraint, Direction, Position, Rect, BORDER_BOTTOM, BORDER_LEFT, BORDER_RIGHT, BORDER_TOP,
};

#[test]
fn a_cell_is_inside_up_to_the_far_edges() {
    let area = Rect { x: 1, y: 2, width: 3, height: 4 };
    assert!(area.contains(Position { x: 1, y: 2 }));
    assert!(area.contains(Position { x: 3, y: 5 }));
    assert!(!area.contains(Position { x: 4, y: 5 }));
    assert!(!area.contains(Position { x: 3, y: 6 }));
    assert!(!area.contains(Position { x: 0, y: 2 }));
    assert!(!area.contains(Position { x: 1, y: 1 }));
    let empty = Rect { x: 5, y: 5, width: 0, height: 0 };
    assert!(!empty.contains(Position { x: 5, y: 5 }));
}

#[test]
fn the_far_edges_saturate() {
    let area = Rect { x: 65530, y: 65530, width: 100, height: 100 };
    assert!(area.contains(Position { x: 65534, y: 65534 }));
    assert!(!area.contains(Position { x: 65535, y: 65534 }));
    assert!(!area.contains(Position { x: 65534, y: 65535 }));
}

#[test]
fn the_inner_area_loses_the_margin_on_each_side() {
    let area = Rect { x: 0, y: 0, width: 80, height: 24 };
    assert_eq!(area.inner(8, 4), Rect { x: 8, y: 4, width: 64, height: 16 });
    assert_eq!(area.inner(0, 0), area);
    let moved = Rect { x: 10, y: 20, width: 30, height: 40 };
    assert_eq!(moved.inner(2, 2), Rect { x: 12, y: 22, width: 26, height: 36 });
    assert_eq!(moved.inner(15, 2), Rect { x: 25, y: 22, width: 0, height: 36 });
}

#[test]
fn an_area_too_small_for_the_margin_gives_the_empty_area() {
    let area = Rect { x: 3, y: 3, width: 10, height: 7 };
    assert_eq!(area.inner(8, 4), Rect { x: 0, y: 0, width: 0, height: 0 });
    assert_eq!(area.inner(1, 4), Rect { x: 0, y: 0, width: 0, height: 0 });
    assert_eq!(area.inner(40000, 0), Rect { x: 0, y: 0, width: 0, height: 0 });
}

#[test]
fn a_division_gives_one_part_for_each_constraint() {
    let area = Rect { x: 2, y: 3, width: 100, height: 8 };
    let parts = area.split(
        Direction::Horizontal,
        &vec![Constraint::Length(40), Constraint::Fill(2), Constraint::Fill(1)],
    );
    assert_eq!(parts.len(), 3);
    for part in &parts {
        assert_eq!(part.y, 3);
        assert_eq!(part.height, 8);
    }
    assert_eq!(parts[0], Rect { x: 2, y: 3, width: 40, height: 8 });
    assert_eq!(parts[1], Rect { x: 42, y: 3, width: 40, height: 8 });
    assert_eq!(parts[2], Rect { x: 82, y: 3, width: 20, height: 8 });
}

#[test]
fn a_division_into_rows_keeps_the_width() {
    let area = Rect { x: 4, y: 1, width: 50, height: 20 };
    let rows = area.split(Direction::Vertical, &vec![Constraint::Length(8), Constraint::Length(8)]);
    assert_eq!(rows.len(), 2);
    for row in &rows {
        assert_eq!(row.x, 4);
        assert_eq!(row.width, 50);
    }
    assert_eq!(rows[0], Rect { x: 4, y: 1, width: 50, height: 8 });
    assert_eq!(rows[1], Rect { x: 4, y: 9, width: 50, height: 8 });
    assert!(area.split(Direction::Vertical, &Vec::new()).is_empty());
}

#[test]
fn the_area_below_a_top_border_starts_one_line_lower() {
    let area = Rect { x: 2, y: 2, width: 100, height: 25 };
    assert_eq!(area.within_borders(BORDER_TOP), Rect { x: 2, y: 3, width: 100, height: 24 });
    let flat = Rect { x: 2, y: 7, width: 10, height: 0 };
    assert_eq!(flat.within_borders(BORDER_TOP), Rect { x: 2, y: 7, width: 10, height: 0 });
    let one = Rect { x: 0, y: 0, width: 10, height: 1 };
    assert_eq!(one.within_borders(BORDER_TOP), Rect { x: 0, y: 1, width: 10, height: 0 });
    let low = Rect { x: 0, y: 65535, width: 10, height: 3 };
    assert_eq!(low.within_borders(BORDER_TOP), Rect { x: 0, y: 65535, width: 10, height: 2 });
}

#[test]
fn every_border_takes_a_line_from_its_side() {
    let area = Rect { x: 10, y: 20, width: 30, height: 40 };
    assert_eq!(area.within_borders(0), area);
    assert_eq!(area.within_borders(BORDER_LEFT), Rect { x: 11, y: 20, width: 29, height: 40 });
    assert_eq!(area.within_borders(BORDER_RIGHT), Rect { x: 10, y: 20, width: 29, height: 40 });
    assert_eq!(area.within_borders(BORDER_BOTTOM), Rect { x: 10, y: 20, width: 30, height: 39 });
    let all = BORDER_TOP | BORDER_RIGHT | BORDER_BOTTOM | BORDER_LEFT;
    assert_eq!(area.within_borders(all), Rect { x: 11, y: 21, width: 28, height: 38 });
    assert_eq!(area.within_borders(all | 0xf0), Rect { x: 11, y: 21, width: 28, height: 38 });
    let thin = Rect { x: 5, y: 5, width: 1, height: 1 };
    assert_eq!(thin.within_borders(all), Rect { x: 6, y: 6, width: 0, height: 0 });
    let none = Rect { x: 5, y: 5, width: 0, height: 0 };
    assert_eq!(none.within_borders(all), Rect { x: 5, y: 5, width: 0, height: 0 });
}

#[test]
fn fixed_lengths_that_fit_are_laid_out_from_the_start() {
    for direction in [Direction::Horizontal, Direction::Vertical] {
        for (offset, extent) in [(0u16, 0u16), (0, 7), (3, 8), (5, 100), (17, 239), (40000, 25535)] {
            for lengths in [
                vec![],
                vec![8u16],
                vec![8, 8, 8],
                vec![20, 30],
                vec![0, 5, 0, 7],
                vec![1, 2, 3, 4, 5, 6, 7, 8, 9, 10],
                vec![100, 39, 100],
            ] {
                let total: u32 = lengths.iter().map(|n| *n as u32).sum();
                if total > extent as u32 {
                    continue;
                }
                let area = match direction {
                    Direction::Horizontal => Rect { x: offset, y: 9, width: extent, height: 4 },
                    Direction::Vertical => Rect { x: 9, y: offset, width: 4, height: extent },
                };
                let constraints: Vec<Constraint> =
                    lengths.iter().map(|n| Constraint::Length(*n)).collect();
                let parts = area.split(direction, &constraints);
                assert_eq!(parts.len(), lengths.len());
                let mut start = offset;
                for (part, length) in parts.iter().zip(lengths.iter()) {
                    let expected = match direction {
                        Direction::Horizontal => {
                            Rect { x: start, y: 9, width: *length, height: 4 }
                        }
                        Direction::Vertical => Rect { x: 9, y: start, width: 4, height: *length },
                    };
                    assert_eq!(*part, expected);
                    start += *length;
                }
            }
        }
    }
}

#[test]
fn rows_of_eight_lines_fill_every_height() {
    for height in 0..200u16 {
        let area = Rect { x: 2, y: 3, width: 50, height };
        let rows = area.split(
            Direction::Vertical,
            &vec![Constraint::Length(8); (height / 8) as usize],
        );
        for (i, row) in rows.iter().enumerate() {
            assert_eq!(*row, Rect { x: 2, y: 3 + 8 * i as u16, width: 50, height: 8 });
        }
    }
}

#[test]
fn fixed_lengths_fit_up_to_the_last_coordinate() {
    let area = Rect { x: 65000, y: 1, width: 1000, height: 2 };
    let parts = area.split(
        Direction::Horizontal,
        &vec![Constraint::Length(100), Constraint::Length(200), Constraint::Length(235)],
    );
    assert_eq!(parts[0], Rect { x: 65000, y: 1, width: 100, height: 2 });
    assert_eq!(parts[1], Rect { x: 65100, y: 1, width: 200, height: 2 });
    assert_eq!(parts[2], Rect { x: 65300, y: 1, width: 235, height: 2 });
}
