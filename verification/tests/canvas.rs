use yazz::canvas::Canvas;

fn picture(c: &Canvas, w: usize, h: usize) -> Vec<String> {
    // Rows from top to bottom, as rendered on screen.
    let cells = c.render_cells(0, 0);
    let mut rows = vec![String::new(); h];
    for y in 0..h {
        for x in 0..w {
            rows[h - 1 - y].push(cells[y * w + x].2);
        }
    }
    rows
}

#[test]
fn new_canvas_is_blank() {
    let c = Canvas::new(3, 2);
    assert_eq!(picture(&c, 3, 2), vec!["   ", "   "]);
}

#[test]
fn set_clamps_coordinates() {
    let mut c = Canvas::new(3, 2);
    c.set(0, 0, 'a');
    c.set(10, 0, 'b');
    c.set(1, 10, 'c');
    assert_eq!(picture(&c, 3, 2), vec![" c ", "a b"]);
}

#[test]
fn clear_blanks_all_cells() {
    let mut c = Canvas::new(2, 2);
    c.set(0, 0, 'x');
    c.set(1, 1, 'y');
    c.clear();
    assert_eq!(picture(&c, 2, 2), vec!["  ", "  "]);
}

#[test]
fn x_axis_fills_a_row() {
    let mut c = Canvas::new(4, 3);
    c.plot_x_axis(1);
    assert_eq!(picture(&c, 4, 3), vec!["    ", "----", "    "]);
}

#[test]
fn plot_fills_gaps_between_points() {
    let mut c = Canvas::new(3, 5);
    c.plot_positions(&[0, 4, 4], None);
    // The lower half of the gap is drawn in the column of the lower point
    // (overwriting it), the upper half in the column of the upper point.
    assert_eq!(picture(&c, 3, 5), vec![" ∘∘", " | ", " | ", "|  ", "|  "]);
}

#[test]
fn plot_with_axis() {
    let mut c = Canvas::new(3, 3);
    c.plot_positions(&[1, 1, 1], Some(1));
    assert_eq!(picture(&c, 3, 3), vec!["   ", "∘∘∘", "   "]);
    let mut d = Canvas::new(3, 3);
    d.plot_positions(&[0, 0, 2], Some(1));
    assert_eq!(picture(&d, 3, 3), vec!["  ∘", "--|", "∘| "]);
}

#[test]
fn render_places_row_zero_at_the_bottom() {
    let mut c = Canvas::new(2, 2);
    c.set(1, 0, 'z');
    let cells = c.render_cells(5, 10);
    assert_eq!(cells.len(), 4);
    assert_eq!(cells[0], (5, 12, ' '));
    assert_eq!(cells[1], (6, 12, 'z'));
    assert_eq!(cells[2], (5, 11, ' '));
    assert_eq!(cells[3], (6, 11, ' '));
}

#[test]
fn diff_and_sort() {
    assert_eq!(Canvas::diff(3, 7), 4);
    assert_eq!(Canvas::diff(7, 3), 4);
    assert_eq!(Canvas::sort(0, 5, 1, 2), (1, 2, 0, 5));
    assert_eq!(Canvas::sort(0, 1, 1, 2), (0, 1, 1, 2));
}
