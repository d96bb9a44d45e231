use invaders::frame::{new_frame, Drawable};
use invaders::game::Game;
use invaders::invaders::Invader;
use invaders::player::Player;
use invaders::render::render_writes;
use invaders::{NUM_COLS, NUM_ROWS};

#[test]
fn fresh_frame_is_blank() {
    let f = new_frame();
    for x in 0..NUM_COLS {
        for y in 0..NUM_ROWS {
            assert_eq!(f.get(x, y), ' ');
        }
    }
}

#[test]
fn set_writes_one_cell() {
    let mut f = new_frame();
    f.set(3, 4, 'Z');
    assert_eq!(f.get(3, 4), 'Z');
    assert_eq!(f.get(4, 3), ' ');
    assert_eq!(f.get(3, 5), ' ');
}

#[test]
fn clear_blanks_every_cell() {
    let mut f = new_frame();
    f.set(0, 0, 'Z');
    f.set(NUM_COLS - 1, NUM_ROWS - 1, 'Z');
    f.clear();
    for x in 0..NUM_COLS {
        for y in 0..NUM_ROWS {
            assert_eq!(f.get(x, y), ' ');
        }
    }
}

#[test]
fn entities_draw_their_glyphs() {
    let mut game = Game::new();
    game.player = Player::new_at(4, 10);
    let mut inv = Invader::new_at(9);
    inv.y = 5;
    game.add_invader(inv);
    game.player.shoot();
    let mut f = new_frame();
    game.draw(&mut f);
    assert_eq!(f.get(4, 10), 'A');
    assert_eq!(f.get(4, 9), '|');
    assert_eq!(f.get(9, 5), 'V');
    assert_eq!(f.get(0, 0), ' ');
}

#[test]
fn exploding_entities_draw_stars() {
    let mut game = Game::new();
    game.player = Player::new_at(4, 10);
    game.player.explode();
    let mut inv = Invader::new_at(9);
    inv.y = 5;
    inv.explode();
    game.add_invader(inv);
    let mut f = new_frame();
    game.draw(&mut f);
    assert_eq!(f.get(4, 10), '*');
    assert_eq!(f.get(9, 5), '*');
}

#[test]
fn clear_then_draw_matches_fresh_draw() {
    let mut game = Game::new();
    game.player = Player::new_at(4, 10);
    let mut inv = Invader::new_at(9);
    inv.y = 5;
    game.add_invader(inv);
    game.player.shoot();

    let mut cleared = new_frame();
    cleared.set(0, 0, 'Z');
    cleared.set(7, 7, 'Q');
    cleared.clear();
    game.draw(&mut cleared);

    let mut built = new_frame();
    game.draw(&mut built);

    for x in 0..NUM_COLS {
        for y in 0..NUM_ROWS {
            assert_eq!(cleared.get(x, y), built.get(x, y));
        }
    }
}

#[test]
fn forced_render_writes_every_cell() {
    let f = new_frame();
    let w = render_writes(&f, &f, true);
    assert_eq!(w.len(), NUM_COLS * NUM_ROWS);
}

#[test]
fn render_emits_only_changed_cells() {
    let last = new_frame();
    let mut curr = new_frame();
    curr.set(2, 3, 'V');
    curr.set(11, 19, 'A');
    let w = render_writes(&last, &curr, false);
    assert_eq!(w.len(), 2);
    assert_eq!((w[0].x, w[0].y, w[0].glyph), (2, 3, 'V'));
    assert_eq!((w[1].x, w[1].y, w[1].glyph), (11, 19, 'A'));
}

#[test]
fn render_clears_cells_gone_blank() {
    let mut last = new_frame();
    last.set(6, 6, 'V');
    let curr = new_frame();
    let w = render_writes(&last, &curr, false);
    assert_eq!(w.len(), 1);
    assert_eq!((w[0].x, w[0].y, w[0].glyph), (6, 6, ' '));
}

#[test]
fn render_twice_on_equal_frames_emits_nothing() {
    let mut game = Game::new();
    let mut f = new_frame();
    game.draw(&mut f);
    let blank = new_frame();
    let first = render_writes(&blank, &f, false);
    assert!(!first.is_empty());
    let second = render_writes(&f, &f, false);
    assert!(second.is_empty());
}
