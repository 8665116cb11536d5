use chip_8::display::{squares, Tick, MARGIN, PITCH, SIDE};
use chip_8::{CPUBuilder, Fault, Game};

fn blank() -> [[bool; 64]; 32] {
    [[false; 64]; 32]
}

fn game_with(program: &[u8]) -> Game {
    let mut image = [0; 4096];
    image[..program.len()].copy_from_slice(program);
    Game::new(CPUBuilder::new().memory(image).build())
}

#[test]
fn squares_of_a_blank_display_are_none() {
    assert_eq!(squares(&blank()), vec![]);
}

#[test]
fn squares_come_row_by_row() {
    let mut screen = blank();
    screen[2][5] = true;
    screen[0][63] = true;
    screen[0][0] = true;
    screen[31][63] = true;

    assert_eq!(squares(&screen), vec![(4, 4), (760, 4), (64, 28), (760, 376)]);
}

#[test]
fn squares_of_a_full_display_cover_it() {
    let corners = squares(&[[true; 64]; 32]);

    assert_eq!(corners.len(), 2048);
    for (n, corner) in corners.iter().enumerate() {
        assert_eq!(*corner, ((n % 64) * PITCH + MARGIN, (n / 64) * PITCH + MARGIN));
    }
    assert!(SIDE < PITCH);
}

#[test]
fn tick_paints_only_when_asked() {
    let mut game = game_with(&[0x61, 0x07, 0x62, 0x08]);
    let mut screen = blank();

    assert_eq!(game.tick(&mut screen, false), Ok(Tick::Wait));
    assert_eq!(game.cpu.registers[1], 7);
    assert_eq!(game.tick(&mut screen, true), Ok(Tick::Paint));
    assert_eq!(game.cpu.registers[2], 8);
}

#[test]
fn tick_stops_on_halt_whatever_the_event() {
    let mut game = game_with(&[]);
    assert_eq!(game.tick(&mut blank(), true), Ok(Tick::Stop));
    assert_eq!(game.tick(&mut blank(), false), Ok(Tick::Stop));
    assert_eq!(game.cpu.program_counter, 204);
}

#[test]
fn tick_hands_a_fault_on() {
    let mut game = game_with(&[0xFF, 0xFF]);

    assert_eq!(game.tick(&mut blank(), true), Err(Fault::UnknownOpcode(0xFFFF)));
}

#[test]
fn tick_draws_on_the_display() {
    let mut game = game_with(&[0xD0, 0x05]);
    let mut screen = blank();

    assert_eq!(game.tick(&mut screen, true), Ok(Tick::Paint));
    assert_eq!(squares(&screen).len(), 14);
    assert_eq!(squares(&screen)[0], (4, 4));
}
