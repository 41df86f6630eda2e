use hash_os::interrupts::{
    breakpoint_handler, default_exception_handler, double_fault_handler, init_idt, int_44_handler,
    invalid_tss_handler, page_fault_handler, segment_not_present_handler, timer_interrupt_handler,
    ControllerPair, EoiTarget, HandlerKind, InterruptIndex, Recovery, TrapFrame,
    DOUBLE_FAULT_IST_INDEX, PIC_1_OFFSET, PIC_2_OFFSET,
};
use hash_os::vga_buffer::{Color, ColorCode, Writer, BUFFER_HEIGHT, BUFFER_WIDTH};

fn fresh_writer() -> Writer {
    Writer::new(ColorCode::new(Color::LightGreen, Color::Black))
}

fn grid_text(w: &Writer) -> String {
    let mut out = String::new();
    for row in 0..BUFFER_HEIGHT {
        for col in 0..BUFFER_WIDTH {
            let b = w.buffer[row * BUFFER_WIDTH + col].ascii_character;
            if b != 0 {
                out.push(b as char);
            }
        }
        out.push('\n');
    }
    out
}

fn frame() -> TrapFrame {
    TrapFrame {
        instruction_pointer: 0x1000,
        code_segment: 8,
        cpu_flags: 0x202,
        stack_pointer: 0x2000,
        stack_segment: 0,
    }
}

#[test]
fn vector_table_binds_every_slot() {
    let t = init_idt();
    assert!(t.active);
    assert_eq!(t.entries.len(), 256);
    for v in 0..256 {
        assert!(t.entries[v].is_some());
    }
    assert_eq!(t.entries[3].unwrap().handler, HandlerKind::Breakpoint);
    assert_eq!(t.entries[8].unwrap().handler, HandlerKind::DoubleFault);
    assert_eq!(t.entries[8].unwrap().stack_index, Some(DOUBLE_FAULT_IST_INDEX));
    assert_eq!(t.entries[14].unwrap().handler, HandlerKind::PageFault);
    assert_eq!(t.entries[32].unwrap().handler, HandlerKind::Timer);
    assert_eq!(t.entries[33].unwrap().handler, HandlerKind::Keyboard);
    assert_eq!(t.entries[44].unwrap().handler, HandlerKind::Int44);
    assert_eq!(t.entries[200].unwrap().handler, HandlerKind::DefaultException);
    assert_eq!(t.entries[200].unwrap().stack_index, None);
}

#[test]
fn interrupt_lines_sit_above_the_exception_range() {
    assert_eq!(PIC_1_OFFSET, 32);
    assert_eq!(PIC_2_OFFSET, 40);
    assert_eq!(InterruptIndex::Timer.as_u8(), 32);
    assert_eq!(InterruptIndex::Keyboard.as_u8(), 33);
    assert_eq!(InterruptIndex::Keyboard.as_usize(), 33);
}

#[test]
fn controller_pair_acknowledges_the_right_controllers() {
    let mut pics = ControllerPair::new(PIC_1_OFFSET, PIC_2_OFFSET);
    pics.initialize();
    assert!(pics.initialized);
    assert!(!pics.handles_interrupt(31));
    assert!(pics.handles_interrupt(32));
    assert!(pics.handles_interrupt(47));
    assert!(!pics.handles_interrupt(48));
    assert_eq!(pics.acknowledge(33), EoiTarget::PrimaryOnly);
    assert_eq!(pics.acknowledge(40), EoiTarget::Both);
}

#[test]
fn page_fault_report_names_address_and_every_bit() {
    let mut w = fresh_writer();
    let window: Vec<u8> = vec![0x90, 0xcc];
    let r = page_fault_handler(&mut w, &frame(), 0xdeadbeef, 0b00111, &window);
    assert_eq!(r, Recovery::FatalHalt);
    let text = grid_text(&w);
    assert!(text.contains("EXCEPTION: PAGE FAULT"));
    assert!(text.contains("Accessed Address: 0x00000000deadbeef"));
    // The decoded-bit line is one column wider than the row, so its tail
    // wraps onto the next row.
    assert!(text.contains("present: true, write: true,"));
    assert!(text.contains("user: true, reserved: false, instruction_fetch: fal"));
    assert!(text.contains("0x90 0xcc"));
}

#[test]
fn double_fault_is_always_fatal() {
    let mut w = fresh_writer();
    assert_eq!(double_fault_handler(&mut w, &frame(), 0), Recovery::FatalHalt);
    assert_eq!(double_fault_handler(&mut w, &frame(), u64::MAX), Recovery::FatalHalt);
    assert!(grid_text(&w).contains("EXCEPTION: DOUBLE FAULT (code 0)"));
}

#[test]
fn segment_not_present_decodes_selector_and_restarts() {
    let mut w = fresh_writer();
    let window: Vec<u8> = vec![];
    // external bit set, table bits 0b10, index 3.
    let ec: u64 = 1 | 0b100 | (3 << 3);
    let r = segment_not_present_handler(&mut w, &frame(), ec, &window);
    assert_eq!(r, Recovery::Restart);
    let text = grid_text(&w);
    assert!(text.contains("External?: 1 Table: 4 Index: 3"));
}

#[test]
fn breakpoint_resumes_after_dumping_context() {
    let mut w = fresh_writer();
    assert_eq!(breakpoint_handler(&mut w, &frame()), Recovery::Resume);
    let text = grid_text(&w);
    assert!(text.contains("EXCEPTION: BREAKPOINT"));
    assert!(text.contains("RIP: 0x0000000000001000"));
}

#[test]
fn error_code_handlers_report_the_code_in_decimal() {
    let mut w = fresh_writer();
    assert_eq!(invalid_tss_handler(&mut w, &frame(), 42), Recovery::Resume);
    assert!(grid_text(&w).contains("EXCEPTION: invalid_tss errcode 42"));
}

#[test]
fn vector_44_logs_and_resumes() {
    let mut w = fresh_writer();
    assert_eq!(int_44_handler(&mut w, &frame()), Recovery::Resume);
    assert!(grid_text(&w).contains("interrupt 44"));
}

#[test]
fn unclassified_vectors_are_silent_noops() {
    assert_eq!(default_exception_handler(&frame()), Recovery::Resume);
}

#[test]
fn timer_blink_leaves_the_column_where_it_was() {
    let mut w = fresh_writer();
    w.write_string("ab");
    let mut pics = ControllerPair::new(PIC_1_OFFSET, PIC_2_OFFSET);
    pics.initialize();
    let eoi = timer_interrupt_handler(&mut w, &pics);
    assert_eq!(eoi, EoiTarget::PrimaryOnly);
    assert_eq!(w.column_position, 2);
    assert_eq!(w.buffer[24 * BUFFER_WIDTH + 2].ascii_character, b' ');
    assert_eq!(w.buffer[24 * BUFFER_WIDTH].ascii_character, b'a');
}
