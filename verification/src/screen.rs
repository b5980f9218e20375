//! The display and input of 6502 test programs that keep a 32x32 screen in
//! RAM at $0200-$05FF, one byte per pixel, and read the last key pressed
//! at $00FF.
use vstd::prelude::*;

use crate::nes::cpu::CPU;

verus! {

/// The first address of the screen in memory.
pub const SCREEN_START: u16 = 0x0200;

/// The number of pixels (and bytes) of the screen.
pub const SCREEN_PIXELS: usize = 1024;

/// The address the program reads the last key from.
pub const INPUT_ADDRESS: u16 = 0x00FF;

/// The colors that a screen byte stands for.
#[derive(Clone, Copy, Debug, PartialEq, Eq, Structural)]
pub enum ScreenColor {
    Black,
    White,
    Grey,
    Red,
    Green,
    Blue,
    Magenta,
    Yellow,
    Cyan,
}

/// The color of a screen byte: 0 black, 1 white, then grey, red, green,
/// blue, magenta and yellow for 2-7 and again for 9-14, cyan otherwise.
pub open spec fn spec_color(byte: u8) -> ScreenColor {
    if byte == 0 {
        ScreenColor::Black
    } else if byte == 1 {
        ScreenColor::White
    } else if byte == 2 || byte == 9 {
        ScreenColor::Grey
    } else if byte == 3 || byte == 10 {
        ScreenColor::Red
    } else if byte == 4 || byte == 11 {
        ScreenColor::Green
    } else if byte == 5 || byte == 12 {
        ScreenColor::Blue
    } else if byte == 6 || byte == 13 {
        ScreenColor::Magenta
    } else if byte == 7 || byte == 14 {
        ScreenColor::Yellow
    } else {
        ScreenColor::Cyan
    }
}

/// The color of a screen byte.
pub fn color(byte: u8) -> (r: ScreenColor)
    ensures
        r == spec_color(byte),
{
    match byte {
        0 => ScreenColor::Black,
        1 => ScreenColor::White,
        2 | 9 => ScreenColor::Grey,
        3 | 10 => ScreenColor::Red,
        4 | 11 => ScreenColor::Green,
        5 | 12 => ScreenColor::Blue,
        6 | 13 => ScreenColor::Magenta,
        7 | 14 => ScreenColor::Yellow,
        _ => ScreenColor::Cyan,
    }
}

impl ScreenColor {
    /// The position of the color in a palette, in the order of declaration.
    pub open spec fn spec_index(self) -> int {
        match self {
            ScreenColor::Black => 0,
            ScreenColor::White => 1,
            ScreenColor::Grey => 2,
            ScreenColor::Red => 3,
            ScreenColor::Green => 4,
            ScreenColor::Blue => 5,
            ScreenColor::Magenta => 6,
            ScreenColor::Yellow => 7,
            ScreenColor::Cyan => 8,
        }
    }

    /// The position of the color in a palette, in the order of declaration.
    pub fn index(self) -> (r: usize)
        ensures
            r == self.spec_index(),
    {
        match self {
            ScreenColor::Black => 0,
            ScreenColor::White => 1,
            ScreenColor::Grey => 2,
            ScreenColor::Red => 3,
            ScreenColor::Green => 4,
            ScreenColor::Blue => 5,
            ScreenColor::Magenta => 6,
            ScreenColor::Yellow => 7,
            ScreenColor::Cyan => 8,
        }
    }
}

/// The RGB frame of the screen whose bytes are `screen`: three bytes per
/// pixel, the red, green and blue of its color in `palette`.
pub open spec fn screen_frame(screen: Seq<u8>, palette: Seq<[u8; 3]>) -> Seq<u8> {
    Seq::new(
        3 * screen.len(),
        |i: int| palette[spec_color(screen[i / 3]).spec_index()]@[i % 3],
    )
}

/// The screen bytes as the CPU reads them.
pub open spec fn screen_bytes(cpu: crate::nes::cpu::state::CpuState) -> Seq<u8> {
    Seq::new(SCREEN_PIXELS as nat, |k: int| cpu.bus.read_value((SCREEN_START + k) as u16))
}

/// Renders the screen into `frame` (RGB, three bytes per pixel) with the
/// colors of `palette`; tells whether any byte of the frame changed. The
/// reads take no cycles and leave the CPU as it was.
pub fn read_screen_state(cpu: &mut CPU, frame: &mut [u8; 3072], palette: &[[u8; 3]; 9]) -> (updated: bool)
    requires
        old(cpu)@.wf(),
    ensures
        final(cpu)@ == old(cpu)@,
        final(frame)@ == screen_frame(screen_bytes(old(cpu)@), palette@),
        updated == (final(frame)@ != old(frame)@),
{
    let ghost start = cpu@;
    let ghost before = frame@;
    let ghost target = screen_frame(screen_bytes(start), palette@);
    let mut frame_idx: usize = 0;
    let mut update = false;
    let mut i: u16 = SCREEN_START;
    while i < SCREEN_START + 0x400
        invariant
            SCREEN_START <= i <= SCREEN_START + 0x400,
            frame_idx == 3 * (i - SCREEN_START),
            cpu@ == start,
            start.wf(),
            target == screen_frame(screen_bytes(start), palette@),
            target.len() == 3072,
            frame@.len() == 3072,
            forall|j: int| 0 <= j < frame_idx ==> frame@[j] == target[j],
            before.len() == 3072,
            forall|j: int| frame_idx <= j < 3072 ==> frame@[j] == before[j],
            update == exists|j: int| 0 <= j < frame_idx && before[j] != target[j],
        decreases SCREEN_START + 0x400 - i,
    {
        proof {
            crate::nes::cpu::memory::lemma_ram_read_keeps_state(start.bus, i);
        }
        let color_idx = cpu.unclocked_read_u8(i);
        let rgb = palette[color(color_idx).index()];
        proof {
            let k = (i - SCREEN_START) as int;
            assert(screen_bytes(start)[k] == color_idx);
            assert((3 * k) / 3 == k && (3 * k) % 3 == 0) by (nonlinear_arith);
            assert((3 * k + 1) / 3 == k && (3 * k + 1) % 3 == 1) by (nonlinear_arith);
            assert((3 * k + 2) / 3 == k && (3 * k + 2) % 3 == 2) by (nonlinear_arith);
            assert(target[3 * k] == rgb@[0]);
            assert(target[3 * k + 1] == rgb@[1]);
            assert(target[3 * k + 2] == rgb@[2]);
        }
        if frame[frame_idx] != rgb[0] || frame[frame_idx + 1] != rgb[1] || frame[frame_idx + 2]
            != rgb[2] {
            frame[frame_idx] = rgb[0];
            frame[frame_idx + 1] = rgb[1];
            frame[frame_idx + 2] = rgb[2];
            update = true;
        }
        frame_idx = frame_idx + 3;
        i = i + 1;
    }
    proof {
        assert(frame@ =~= target);
        if update {
            let j = choose|j: int| 0 <= j < 3072 && before[j] != target[j];
            assert(before[j] != frame@[j]);
        } else {
            assert(before =~= target);
        }
    }
    update
}

/// The keys the test programs read.
#[derive(Clone, Copy, Debug, PartialEq, Eq, Structural)]
pub enum InputKey {
    W,
    A,
    S,
    D,
}

/// The byte a key leaves at `INPUT_ADDRESS`: its lower-case ASCII code.
pub fn input_byte(key: InputKey) -> (r: u8)
    ensures
        r == match key {
            InputKey::W => 0x77u8,
            InputKey::A => 0x61u8,
            InputKey::S => 0x73u8,
            InputKey::D => 0x64u8,
        },
{
    match key {
        InputKey::W => 0x77,
        InputKey::A => 0x61,
        InputKey::S => 0x73,
        InputKey::D => 0x64,
    }
}

/// The color of a byte, by its position in the palette: bytes 0-8 take the
/// color of their own position, bytes 9-14 repeat the colors of bytes 2-7
/// (the byte less 7), and every byte from 15 up is cyan, the last color.
pub proof fn lemma_color_positions(byte: u8)
    ensures
        spec_color(byte).spec_index() == if byte <= 8 {
            byte as int
        } else if byte <= 14 {
            byte - 7
        } else {
            8
        },
        2 <= byte <= 7 ==> spec_color((byte + 7) as u8) == spec_color(byte),
{
}

} // verus!
