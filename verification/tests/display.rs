use chippy::emu::display::{Display, SCREEN_HEIGHT, SCREEN_WIDTH};

fn lit(display: &Display) -> Vec<(usize, usize)> {
    let mut places = Vec::new();
    for y in 0..SCREEN_HEIGHT {
        for x in 0..SCREEN_WIDTH {
            if display.pixels[y * SCREEN_WIDTH + x] {
                places.push((x, y));
            }
        }
    }
    places
}

#[test]
fn new_display_is_blank() {
    let display = Display::new();
    assert!(display.pixels.iter().all(|pixel| !pixel));
}

#[test]
fn display_draws_the_highest_bit_leftmost() {
    let mut display = Display::new();
    assert_eq!(display.draw(3, 2, &[0b10100000, 0b00000001]), 0);
    assert_eq!(lit(&display), vec![(3, 2), (5, 2), (10, 3)]);
}

#[test]
fn display_reports_a_pixel_that_goes_off() {
    let mut display = Display::new();
    assert_eq!(display.draw(0, 0, &[0b11110000]), 0);
    assert_eq!(display.draw(4, 0, &[0b11110000]), 0);
    assert_eq!(display.draw(0, 0, &[0b11110000]), 1);
    assert_eq!(lit(&display), vec![(4, 0), (5, 0), (6, 0), (7, 0)]);
}

#[test]
fn display_cuts_sprites_at_the_edges() {
    let mut display = Display::new();
    assert_eq!(display.draw(62, 31, &[0b11110000, 0b11111111]), 0);
    assert_eq!(lit(&display), vec![(62, 31), (63, 31)]);
    assert_eq!(display.draw(64, 0, &[0xFF]), 0);
    assert_eq!(display.draw(0, 32, &[0xFF]), 0);
    assert_eq!(display.draw(usize::MAX, usize::MAX, &[0xFF, 0xFF]), 0);
    assert_eq!(lit(&display), vec![(62, 31), (63, 31)]);
}

#[test]
fn display_takes_sprites_of_any_height() {
    let mut display = Display::new();
    assert_eq!(display.draw(0, 0, &[0x80; 40]), 0);
    assert_eq!(lit(&display).len(), 32);
    assert_eq!(display.draw(0, 30, &[0x80; 40]), 1);
    assert_eq!(lit(&display).len(), 30);
}

#[test]
fn clear_blanks_the_display() {
    let mut display = Display::new();
    display.draw(1, 1, &[0xFF]);
    display.clear();
    assert!(display.pixels.iter().all(|pixel| !pixel));
}
