use termloop::surface::{compose_frame, Color, SurfaceOp, Text, CELL_WIDTH};
use termloop::world::WorldState;

#[test]
fn a_frame_clears_writes_the_instructions_draws_the_glyph_and_flushes() {
    let ops = compose_frame(WorldState { x: 3, y: 7 });
    assert_eq!(
        ops,
        vec![
            SurfaceOp::Clear,
            SurfaceOp::SetForeground(Color::White),
            SurfaceOp::MoveTo { column: 0, row: 0 },
            SurfaceOp::Write(Text::Instructions),
            SurfaceOp::MoveTo { column: 6, row: 7 },
            SurfaceOp::SetForeground(Color::Rgb { r: 255, g: 0, b: 0 }),
            SurfaceOp::Write(Text::Glyph),
            SurfaceOp::Flush,
        ]
    );
}

#[test]
fn the_glyph_column_is_twice_the_cell_column() {
    for (x, y) in [(0, 0), (1, 0), (4, 4), (32767, 65535)] {
        let ops = compose_frame(WorldState { x, y });
        assert_eq!(ops[4], SurfaceOp::MoveTo { column: (2 * x) as u16, row: y as u16 });
    }
}

#[test]
fn the_texts_of_a_frame() {
    assert_eq!(Text::Instructions.as_str(), "move with wasd, press q to exit");
    assert_eq!(Text::Glyph.as_str(), "[]");
    assert_eq!(Text::Glyph.as_str().chars().count(), CELL_WIDTH as usize);
}
