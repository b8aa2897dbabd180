use pillar::{default_palette, Cell, Screen};

fn at(s: &Screen, width: usize, x: usize, y: usize) -> Cell {
    s.cells[y * width + x]
}

fn white() -> Cell {
    Cell::new(255, 255, 255)
}

#[test]
fn cell_default_is_white() {
    let c: Cell = Default::default();
    assert_eq!(c, white());
    let d = Cell::new(1, 2, 3);
    assert_eq!((d.r, d.g, d.b), (1, 2, 3));
}

#[test]
fn default_palette_table() {
    let expected: [(u8, u8, u8); 16] = [
        (0, 0, 0),
        (29, 43, 83),
        (126, 37, 83),
        (0, 135, 81),
        (171, 82, 54),
        (95, 87, 79),
        (194, 195, 199),
        (255, 241, 232),
        (255, 0, 77),
        (255, 163, 0),
        (255, 236, 39),
        (0, 228, 54),
        (41, 173, 255),
        (131, 118, 156),
        (255, 119, 168),
        (255, 204, 170),
    ];
    let p = default_palette();
    for i in 0..16 {
        assert_eq!(p[i], Cell::new(expected[i].0, expected[i].1, expected[i].2));
    }
}

#[test]
fn new_screen_is_white() {
    for (w, h) in [(1, 1), (3, 5), (128, 128)] {
        let s = Screen::new(w, h);
        assert_eq!(s.cells.len(), w * h);
        assert!(s.cells.iter().all(|c| *c == white()));
        assert_eq!(s.clear, Cell::new(0, 0, 0));
    }
}

#[test]
fn new_with_palette_binds_copy() {
    let mut p = default_palette();
    p[0] = Cell::new(9, 8, 7);
    p[3] = Cell::new(1, 1, 1);
    let mut s = Screen::new_with_palette(2, 3, p);
    assert_eq!(s.clear, Cell::new(9, 8, 7));
    assert_eq!(s.cells.len(), 6);
    assert!(s.cells.iter().all(|c| *c == white()));
    p[3] = Cell::new(2, 2, 2);
    s.set(1, 2, 3);
    assert_eq!(at(&s, 2, 1, 2), Cell::new(1, 1, 1));
}

#[test]
fn clear_fills_every_cell() {
    for (w, h) in [(1, 1), (4, 7), (16, 2)] {
        let mut s = Screen::new(w, h);
        s.set_clear(12);
        s.clear();
        assert!(s.cells.iter().all(|c| *c == Cell::new(41, 173, 255)));
        s.set_clear(0);
        s.clear();
        assert!(s.cells.iter().all(|c| *c == Cell::new(0, 0, 0)));
    }
}

#[test]
fn set_clear_does_not_repaint() {
    let mut s = Screen::new(3, 3);
    s.set_clear(8);
    assert_eq!(s.clear, Cell::new(255, 0, 77));
    assert!(s.cells.iter().all(|c| *c == white()));
}

#[test]
fn set_changes_one_cell() {
    let mut s = Screen::new(5, 4);
    s.clear();
    s.set(3, 2, 9);
    for y in 0..4 {
        for x in 0..5 {
            let expected = if (x, y) == (3, 2) { Cell::new(255, 163, 0) } else { Cell::new(0, 0, 0) };
            assert_eq!(at(&s, 5, x, y), expected);
        }
    }
}

#[test]
fn rectfill_fills_box_only() {
    let mut s = Screen::new(8, 6);
    s.clear();
    s.rectfill(2, 1, 5, 3, 11);
    for y in 0..6 {
        for x in 0..8 {
            let inside = (2..=5).contains(&x) && (1..=3).contains(&y);
            let expected = if inside { Cell::new(0, 228, 54) } else { Cell::new(0, 0, 0) };
            assert_eq!(at(&s, 8, x, y), expected);
        }
    }
}

#[test]
fn rectfill_column_order_does_not_matter() {
    let mut a = Screen::new(7, 7);
    let mut b = Screen::new(7, 7);
    a.rectfill(5, 1, 2, 4, 3);
    b.rectfill(2, 1, 5, 4, 3);
    assert_eq!(a.cells, b.cells);
    assert_eq!(at(&a, 7, 2, 1), Cell::new(0, 135, 81));
    assert_eq!(at(&a, 7, 1, 1), white());
}

#[test]
fn rect_draws_outline() {
    let mut s = Screen::new(8, 8);
    s.clear();
    s.rect(6, 1, 2, 5, 7);
    let ink = Cell::new(255, 241, 232);
    for y in 0..8 {
        for x in 0..8 {
            let edge_row = (y == 1 || y == 5) && (2..=6).contains(&x);
            let edge_col = (2..=4).contains(&y) && (x == 2 || x == 6);
            let expected = if edge_row || edge_col { ink } else { Cell::new(0, 0, 0) };
            assert_eq!(at(&s, 8, x, y), expected);
        }
    }
}

#[test]
fn rect_alt_colours_by_column_parity() {
    let mut s = Screen::new(9, 6);
    s.clear();
    s.rect_alt(1, 0, 6, 4, 8, 12);
    let even = Cell::new(255, 0, 77);
    let odd = Cell::new(41, 173, 255);
    for y in 0..6 {
        for x in 0..9 {
            let edge_row = (y == 0 || y == 4) && (1..=6).contains(&x);
            let edge_col = (1..=3).contains(&y) && (x == 1 || x == 6);
            let expected = if edge_row || edge_col {
                if x % 2 == 0 { even } else { odd }
            } else {
                Cell::new(0, 0, 0)
            };
            assert_eq!(at(&s, 9, x, y), expected);
        }
    }
}

#[test]
fn rect_alt_single_row() {
    let mut s = Screen::new(6, 2);
    s.clear();
    s.rect_alt(4, 1, 1, 1, 2, 3);
    let row: Vec<Cell> = (0..6).map(|x| at(&s, 6, x, 1)).collect();
    assert_eq!(
        row,
        vec![
            Cell::new(0, 0, 0),
            Cell::new(0, 135, 81),
            Cell::new(126, 37, 83),
            Cell::new(0, 135, 81),
            Cell::new(126, 37, 83),
            Cell::new(0, 0, 0),
        ]
    );
    assert!((0..6).all(|x| at(&s, 6, x, 0) == Cell::new(0, 0, 0)));
}

#[test]
fn rect_single_cell() {
    let mut s = Screen::new(10, 10);
    s.clear();
    s.rect(5, 5, 5, 5, 14);
    for y in 0..10 {
        for x in 0..10 {
            let expected = if (x, y) == (5, 5) { Cell::new(255, 119, 168) } else { Cell::new(0, 0, 0) };
            assert_eq!(at(&s, 10, x, y), expected);
        }
    }
}

#[test]
fn draw_uniform_screen() {
    let mut p = default_palette();
    p[4] = Cell::new(10, 20, 30);
    let mut s = Screen::new_with_palette(3, 2, p);
    s.set_clear(4);
    s.clear();
    let mut canvas = vec![0u8; 3 * 2 * 4];
    s.draw(&mut canvas);
    assert_eq!(canvas.len(), 24);
    for (i, b) in canvas.iter().enumerate() {
        assert_eq!(*b, [10, 20, 30, 255][i % 4]);
    }
}

#[test]
fn draw_row_major_order() {
    let mut s = Screen::new(2, 2);
    s.clear();
    s.set(1, 0, 8);
    s.set(0, 1, 1);
    let mut canvas = vec![0u8; 16];
    s.draw(&mut canvas);
    assert_eq!(
        canvas,
        vec![0, 0, 0, 255, 255, 0, 77, 255, 29, 43, 83, 255, 0, 0, 0, 255]
    );
}

#[test]
fn draw_short_canvas_copies_whole_cells_only() {
    let s = Screen::new(2, 2);
    let mut canvas = vec![7u8; 10];
    s.draw(&mut canvas);
    assert_eq!(canvas, vec![255, 255, 255, 255, 255, 255, 255, 255, 7, 7]);
}

#[test]
fn draw_long_canvas_keeps_tail() {
    let mut s = Screen::new(1, 1);
    s.clear();
    let mut canvas = vec![9u8; 7];
    s.draw(&mut canvas);
    assert_eq!(canvas, vec![0, 0, 0, 255, 9, 9, 9]);
}

#[test]
fn center_fill_scenario() {
    let mut s = Screen::new(4, 4);
    s.set_clear(1);
    s.clear();
    s.rectfill(1, 1, 2, 2, 8);
    let p = default_palette();
    for y in 0..4 {
        for x in 0..4 {
            let center = (1..=2).contains(&x) && (1..=2).contains(&y);
            let expected = if center { p[8] } else { p[1] };
            assert_eq!(at(&s, 4, x, y), expected);
        }
    }
}
