use hash_os::interrupts::{
    emit_prompt, keyboard_interrupt_handler, ControllerPair, EoiTarget, PendingEffect,
    PIC_1_OFFSET, PIC_2_OFFSET,
};
use hash_os::keyboard::KeyDecoder;
use hash_os::vga_buffer::{Color, ColorCode, Writer, BUFFER_HEIGHT, BUFFER_WIDTH};
use hash_os::{BootInfoView, OSInfoStore};

struct Rig {
    w: Writer,
    dec: KeyDecoder,
    pics: ControllerPair,
    info: OSInfoStore,
}

fn rig() -> Rig {
    let mut pics = ControllerPair::new(PIC_1_OFFSET, PIC_2_OFFSET);
    pics.initialize();
    Rig {
        w: Writer::new(ColorCode::new(Color::LightGreen, Color::Black)),
        dec: KeyDecoder::new(),
        pics,
        info: OSInfoStore {
            bootinfo: BootInfoView { physical_memory_offset: 0x1000, memory_regions: 3 },
        },
    }
}

fn feed(r: &mut Rig, scancode: u8) -> (Option<PendingEffect>, EoiTarget) {
    keyboard_interrupt_handler(&mut r.w, &mut r.dec, &r.pics, &r.info, scancode)
}

fn feed_str(r: &mut Rig, s: &str) {
    for c in s.chars() {
        let scancode = match c {
            'a' => 0x1e,
            'b' => 0x30,
            'c' => 0x2e,
            'm' => 0x32,
            'e' => 0x12,
            'f' => 0x21,
            'h' => 0x23,
            'i' => 0x17,
            'k' => 0x25,
            'l' => 0x26,
            'n' => 0x31,
            'o' => 0x18,
            'p' => 0x19,
            'r' => 0x13,
            't' => 0x14,
            'u' => 0x16,
            'g' => 0x22,
            's' => 0x1f,
            'x' => 0x2d,
            'y' => 0x15,
            'z' => 0x2c,
            '\n' => 0x1c,
            _ => panic!("no scancode for {c}"),
        };
        feed(r, scancode);
    }
}

fn grid_text(w: &Writer) -> String {
    let mut out = String::new();
    for row in 0..BUFFER_HEIGHT {
        for col in 0..BUFFER_WIDTH {
            let b = w.buffer[row * BUFFER_WIDTH + col].ascii_character;
            if b != 0 {
                out.push(b as char);
            }
        }
        out.push('\n');
    }
    out
}

fn last_row_prefix(w: &Writer, n: usize) -> String {
    let mut out = String::new();
    for col in 0..n {
        out.push(w.buffer[24 * BUFFER_WIDTH + col].ascii_character as char);
    }
    out
}

#[test]
fn typing_a_letter_echoes_it() {
    let mut r = rig();
    let (pending, eoi) = feed(&mut r, 0x1e);
    assert_eq!(pending, None);
    assert_eq!(eoi, EoiTarget::PrimaryOnly);
    assert_eq!(r.w.column_position, 1);
    assert_eq!(last_row_prefix(&r.w, 1), "a");
}

#[test]
fn left_arrow_is_a_raw_key_that_moves_the_cursor() {
    let mut r = rig();
    feed(&mut r, 0x1e);
    assert_eq!(r.w.column_position, 1);
    // The two-byte extended sequence for the left arrow: the first byte
    // decodes to no key yet, the second completes a raw-key event.
    let (pending, _) = feed(&mut r, 0xe0);
    assert_eq!(pending, None);
    assert_eq!(r.w.column_position, 1);
    feed(&mut r, 0x4b);
    // The cursor moved left by exactly one column, and the echoed letter
    // was not overwritten: a raw key is distinct from any character event.
    assert_eq!(r.w.column_position, 0);
    assert_eq!(last_row_prefix(&r.w, 1), "a");
    // Clamped at 0.
    feed(&mut r, 0xe0);
    feed(&mut r, 0x4b);
    assert_eq!(r.w.column_position, 0);
}

#[test]
fn right_arrow_moves_within_the_row_only() {
    let mut r = rig();
    feed(&mut r, 0xe0);
    feed(&mut r, 0x4d);
    assert_eq!(r.w.column_position, 1);
}

#[test]
fn backspace_scancode_erases_previous_character() {
    let mut r = rig();
    feed_str(&mut r, "ab");
    assert_eq!(r.w.column_position, 2);
    feed(&mut r, 0x0e);
    assert_eq!(r.w.column_position, 1);
    assert_eq!(last_row_prefix(&r.w, 2), "a ");
}

#[test]
fn delete_scancode_erases_at_cursor() {
    let mut r = rig();
    feed_str(&mut r, "ab");
    feed(&mut r, 0xe0);
    feed(&mut r, 0x4b);
    // Cursor now before 'b'; delete erases it without moving.
    feed(&mut r, 0xe0);
    feed(&mut r, 0x53);
    assert_eq!(r.w.column_position, 1);
    assert_eq!(last_row_prefix(&r.w, 2), "a ");
}

#[test]
fn entering_help_echoes_line_and_prints_help() {
    let mut r = rig();
    emit_prompt(&mut r.w);
    feed_str(&mut r, "help\n");
    let text = grid_text(&r.w);
    assert!(text.contains(">help"));
    assert!(text.contains("<help"));
    assert!(text.contains("help: show help"));
    assert!(text.contains("The QEMU escape key is Ctrl-Alt-G"));
    // A fresh prompt opens the new line.
    assert_eq!(last_row_prefix(&r.w, 1), ">");
}

#[test]
fn entering_bootinfo_prints_the_snapshot() {
    let mut r = rig();
    emit_prompt(&mut r.w);
    feed_str(&mut r, "bootinfo\n");
    let text = grid_text(&r.w);
    // The snapshot follows the echo on the same row, so its tail wraps.
    assert!(text.contains("BootInfo { physical_memory_offset: 0x0000000000001000"));
    assert_eq!(last_row_prefix(&r.w, 1), ">");
}

#[test]
fn bootinfo_report_prints_the_whole_snapshot() {
    let mut r = rig();
    hash_os::bootinfo_report(&mut r.w, &r.info);
    let text = grid_text(&r.w);
    assert!(text.contains(
        "BootInfo { physical_memory_offset: 0x0000000000001000, memory_regions: 3 }"
    ));
}

#[test]
fn entering_break_leaves_the_effect_pending() {
    let mut r = rig();
    emit_prompt(&mut r.w);
    feed_str(&mut r, "break");
    let (pending, _) = feed(&mut r, 0x1c);
    assert_eq!(pending, Some(PendingEffect::Breakpoint));
    // The echo happened, but the prompt waits for the effect.
    assert_eq!(last_row_prefix(&r.w, 6), "<break");
    assert_eq!(r.w.column_position, 6);
}

#[test]
fn entering_pagefault_leaves_the_effect_pending() {
    let mut r = rig();
    emit_prompt(&mut r.w);
    feed_str(&mut r, "pagefault");
    let (pending, _) = feed(&mut r, 0x1c);
    assert_eq!(pending, Some(PendingEffect::PageFault));
}

#[test]
fn entering_an_unknown_line_changes_nothing_but_the_echo() {
    let mut r = rig();
    emit_prompt(&mut r.w);
    feed_str(&mut r, "xyz\n");
    let text = grid_text(&r.w);
    assert!(text.contains("<xyz"));
    // No command output: the fresh prompt follows the echo directly on the
    // bottom row, and the typed line scrolled up one row.
    assert_eq!(last_row_prefix(&r.w, 5), "<xyz>");
    assert_eq!(r.w.column_position, 5);
    let typed_row: String = (0..4)
        .map(|col| r.w.buffer[23 * BUFFER_WIDTH + col].ascii_character as char)
        .collect();
    assert_eq!(typed_row, ">xyz");
}

#[test]
fn shift_press_echoes_a_raw_key_and_shifts_the_next_character() {
    let mut r = rig();
    emit_prompt(&mut r.w);
    // Shift down is itself a raw-key event, echoed as a diagnostic; the
    // modifier state then carries across interrupts, so the minus key
    // yields an underscore.
    let (pending, _) = feed(&mut r, 0x2a);
    assert_eq!(pending, None);
    assert_eq!(last_row_prefix(&r.w, 6), ">(key ");
    let col_after_echo = r.w.column_position;
    feed(&mut r, 0x0c);
    assert_eq!(r.w.column_position, col_after_echo + 1);
    assert_eq!(
        r.w.buffer[24 * BUFFER_WIDTH + col_after_echo].ascii_character,
        b'_'
    );
    // Shift up decodes to no key at all: nothing more is echoed.
    let (pending, _) = feed(&mut r, 0xaa);
    assert_eq!(pending, None);
    assert_eq!(r.w.column_position, col_after_echo + 1);
}

#[test]
fn msr_report_prints_the_sixty_four_bit_value() {
    let mut r = rig();
    // High half 2, low half 5: the value is (2 << 32) | 5.
    hash_os::msr_report(&mut r.w, 5, 2);
    let text = grid_text(&r.w);
    assert!(text.contains("0x0000000200000005"));
    assert!(text.contains(&format!("0b{}1{}101", "0".repeat(30), "0".repeat(30))));
}
