use greenstone::cli::arguments::{Arguments, DEFAULT_SERVER_PORT};
use greenstone::nes::cpu::CPU;
use greenstone::screen::{color, input_byte, read_screen_state, InputKey, ScreenColor};

fn palette() -> [[u8; 3]; 9] {
    [
        [0, 0, 0],
        [255, 255, 255],
        [128, 128, 128],
        [255, 0, 0],
        [0, 255, 0],
        [0, 0, 255],
        [255, 0, 255],
        [255, 255, 0],
        [0, 255, 255],
    ]
}

#[test]
fn screen_colors() {
    assert_eq!(color(0), ScreenColor::Black);
    assert_eq!(color(1), ScreenColor::White);
    assert_eq!(color(2), ScreenColor::Grey);
    assert_eq!(color(9), ScreenColor::Grey);
    assert_eq!(color(10), ScreenColor::Red);
    assert_eq!(color(4), ScreenColor::Green);
    assert_eq!(color(12), ScreenColor::Blue);
    assert_eq!(color(6), ScreenColor::Magenta);
    assert_eq!(color(14), ScreenColor::Yellow);
    assert_eq!(color(8), ScreenColor::Cyan);
    assert_eq!(color(15), ScreenColor::Cyan);
    assert_eq!(color(255), ScreenColor::Cyan);
    assert_eq!(ScreenColor::Cyan.index(), 8);
    assert_eq!(ScreenColor::Black.index(), 0);
}

#[test]
fn screen_state_follows_memory() {
    let mut cpu = CPU::new();
    let mut frame = [0u8; 3072];
    // A zeroed screen is black, as the frame already is.
    assert!(!read_screen_state(&mut cpu, &mut frame, &palette()));
    cpu.unclocked_write_u8(0x0200, 1);
    cpu.unclocked_write_u8(0x05FF, 3);
    assert!(read_screen_state(&mut cpu, &mut frame, &palette()));
    assert_eq!(&frame[0..3], &[255, 255, 255]);
    assert_eq!(&frame[3..6], &[0, 0, 0]);
    assert_eq!(&frame[3069..3072], &[255, 0, 0]);
    // Nothing changed since.
    assert!(!read_screen_state(&mut cpu, &mut frame, &palette()));
    assert_eq!(cpu.clock_counter, 0);
}

#[test]
fn movement_keys() {
    assert_eq!(input_byte(InputKey::W), b'w');
    assert_eq!(input_byte(InputKey::A), b'a');
    assert_eq!(input_byte(InputKey::S), b's');
    assert_eq!(input_byte(InputKey::D), b'd');
}

#[test]
fn arguments_hold_the_command_line() {
    let args = Arguments { file: "game.nes".to_string(), serve: false, server_port: DEFAULT_SERVER_PORT };
    assert_eq!(args.file, "game.nes");
    assert!(!args.serve);
    assert_eq!(args.server_port, 44553);
}
