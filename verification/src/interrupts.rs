//! Interrupt dispatch: the 256-slot vector table and its build/activate
//! protocol, the chained interrupt-controller model, and the exception and
//! hardware-interrupt handlers.
//!
//! Handlers are functions from a snapshot of the interrupted context (and,
//! where the CPU pushes one, an error code) to a console effect and a
//! recovery classification. The hardware edges — reading the keyboard data
//! port, reading the faulting address register, issuing the end-of-interrupt
//! port writes — stay outside; the handlers take those values as arguments
//! and return what must be done.

use vstd::prelude::*;
use crate::vga_buffer::{
    Writer, ConsoleState, ScreenChar, wf_console, spec_write_byte, spec_write_chars, spec_backspace,
    spec_cursor_left, spec_cursor_right, sanitize_char, backspace, cursor_left, cursor_right,
    BUFFER_WIDTH, LAST_ROW_START,
};
use crate::render::{
    spec_hex_u64, spec_hex_u8, spec_dec_u64, spec_bool, push_hex_u64, push_hex_u8, push_dec_u64,
    push_bool, push_str_chars,
};
use crate::cmd::{CmdAction, PROMPT, spec_handle_cmd, spec_help_text, handle_cmd, help_text};
use crate::keyboard::{KeyDecoder, KeyPress, fed_bytes, key_decode};
use crate::{OSInfoStore, BootInfoView, spec_bootinfo_report};

verus! {

broadcast use vstd::array::group_array_axioms;

/// Base vector of the primary interrupt controller: the first vector above
/// the range the CPU reserves for exceptions.
pub const PIC_1_OFFSET: u8 = 32;

/// Base vector of the secondary interrupt controller, chained 8 lines
/// after the primary.
pub const PIC_2_OFFSET: u8 = PIC_1_OFFSET + 8;

/// The alternate-stack index the double-fault vector is bound to.
pub const DOUBLE_FAULT_IST_INDEX: u16 = 0;

/// The two hardware interrupt lines in use.
#[derive(Debug, Clone, Copy, PartialEq, Eq, Structural)]
pub enum InterruptIndex {
    Timer,
    Keyboard,
}

/// The vector number of a hardware interrupt line.
pub open spec fn spec_interrupt_vector(ii: InterruptIndex) -> u8 {
    match ii {
        InterruptIndex::Timer => PIC_1_OFFSET,
        InterruptIndex::Keyboard => (PIC_1_OFFSET + 1) as u8,
    }
}

impl InterruptIndex {
    /// The vector number of this line.
    pub fn as_u8(self) -> (r: u8)
        ensures
            r == spec_interrupt_vector(self),
    {
        match self {
            InterruptIndex::Timer => PIC_1_OFFSET,
            InterruptIndex::Keyboard => PIC_1_OFFSET + 1,
        }
    }

    /// The vector number of this line, as a table index.
    pub fn as_usize(self) -> (r: usize)
        ensures
            r == spec_interrupt_vector(self) as usize,
    {
        self.as_u8() as usize
    }
}

/// Which controllers an end-of-interrupt acknowledgement must reach: a
/// vector on the secondary controller is acknowledged on both.
#[derive(Debug, Clone, Copy, PartialEq, Eq, Structural)]
pub enum EoiTarget {
    PrimaryOnly,
    Both,
}

/// Two chained interrupt controllers, each remapped to a configured base
/// vector. The secondary sits 8 lines after the primary, and the primary
/// sits above the reserved exception range.
#[derive(Debug, Clone, Copy, PartialEq, Eq, Structural)]
pub struct ControllerPair {
    pub primary_offset: u8,
    pub secondary_offset: u8,
    pub initialized: bool,
}

impl ControllerPair {
    /// The pair's structural invariant.
    pub open spec fn spec_wf(self) -> bool {
        &&& self.secondary_offset == self.primary_offset + 8
        &&& self.primary_offset >= 32
        &&& self.primary_offset <= 240
    }

    /// True when `vector` belongs to one of the pair's 16 lines.
    pub open spec fn spec_handles(self, vector: u8) -> bool {
        self.primary_offset <= vector < self.primary_offset + 16
    }

    /// Which controllers must see the end-of-interrupt for `vector`.
    pub open spec fn spec_eoi(self, vector: u8) -> EoiTarget {
        if vector >= self.secondary_offset {
            EoiTarget::Both
        } else {
            EoiTarget::PrimaryOnly
        }
    }

    /// A controller pair with the given base vectors, not yet remapped.
    pub fn new(primary_offset: u8, secondary_offset: u8) -> (r: ControllerPair)
        requires
            secondary_offset == primary_offset + 8,
            primary_offset >= 32,
            primary_offset <= 240,
        ensures
            r.primary_offset == primary_offset,
            r.secondary_offset == secondary_offset,
            !r.initialized,
            r.spec_wf(),
    {
        ControllerPair { primary_offset, secondary_offset, initialized: false }
    }

    /// Remap both controllers to their configured base vectors and unmask
    /// the lines in use; must run before interrupts are globally enabled.
    pub fn initialize(&mut self)
        requires
            old(self).spec_wf(),
        ensures
            final(self).primary_offset == old(self).primary_offset,
            final(self).secondary_offset == old(self).secondary_offset,
            final(self).initialized,
            final(self).spec_wf(),
    {
        self.initialized = true;
    }

    /// True when `vector` belongs to one of the pair's 16 lines.
    pub fn handles_interrupt(&self, vector: u8) -> (r: bool)
        requires
            self.spec_wf(),
        ensures
            r == self.spec_handles(vector),
    {
        self.primary_offset <= vector && (vector as u16) < (self.primary_offset as u16) + 16
    }

    /// Acknowledge the end of the handler for `vector`: to be invoked
    /// exactly once, at the end of every handler for a vector of this pair,
    /// and never from a CPU-fault handler. The result says which
    /// controllers the acknowledgement must reach.
    pub fn acknowledge(&self, vector: u8) -> (r: EoiTarget)
        requires
            self.spec_wf(),
            self.initialized,
            self.spec_handles(vector),
        ensures
            r == self.spec_eoi(vector),
    {
        if vector >= self.secondary_offset {
            EoiTarget::Both
        } else {
            EoiTarget::PrimaryOnly
        }
    }
}

/// A snapshot of the interrupted context, as the CPU pushes it for a
/// handler.
#[derive(Debug, Clone, Copy, PartialEq, Eq, Structural)]
pub struct TrapFrame {
    pub instruction_pointer: u64,
    pub code_segment: u64,
    pub cpu_flags: u64,
    pub stack_pointer: u64,
    pub stack_segment: u64,
}

/// How a handler leaves the machine: resume the interrupted context, halt
/// forever (unrecoverable abort — control never returns to the interrupted
/// context), or restart the kernel's entry point as a coarse recovery.
#[derive(Debug, Clone, Copy, PartialEq, Eq, Structural)]
pub enum Recovery {
    Resume,
    FatalHalt,
    Restart,
}

/// The classified handler a vector-table slot is bound to.
#[derive(Debug, Clone, Copy, PartialEq, Eq, Structural)]
pub enum HandlerKind {
    DefaultException,
    Int44,
    Breakpoint,
    DoubleFault,
    PageFault,
    Timer,
    Keyboard,
    DivideError,
    Debug,
    NonMaskableInterrupt,
    Overflow,
    BoundRangeExceeded,
    InvalidOpcode,
    DeviceNotAvailable,
    InvalidTss,
    SegmentNotPresent,
    StackSegmentFault,
    GeneralProtectionFault,
    X87FloatingPoint,
    AlignmentCheck,
    SimdFloatingPoint,
    Virtualization,
    SecurityException,
}

/// One populated vector-table slot: the handler bound to the vector, and
/// the alternate-stack index it must run on, if any.
#[derive(Debug, Clone, Copy, PartialEq, Eq, Structural)]
pub struct VectorEntry {
    pub handler: HandlerKind,
    pub stack_index: Option<u16>,
}

/// The handler that `build` binds to each vector: the CPU-defined
/// exception vectors get their classified handlers, the two hardware lines
/// get the timer and keyboard handlers, vector 44 gets its dedicated
/// handler, and every other vector gets the silent default.
pub open spec fn spec_idt_entry(v: int) -> VectorEntry {
    if v == 0 {
        VectorEntry { handler: HandlerKind::DivideError, stack_index: None }
    } else if v == 1 {
        VectorEntry { handler: HandlerKind::Debug, stack_index: None }
    } else if v == 2 {
        VectorEntry { handler: HandlerKind::NonMaskableInterrupt, stack_index: None }
    } else if v == 3 {
        VectorEntry { handler: HandlerKind::Breakpoint, stack_index: None }
    } else if v == 4 {
        VectorEntry { handler: HandlerKind::Overflow, stack_index: None }
    } else if v == 5 {
        VectorEntry { handler: HandlerKind::BoundRangeExceeded, stack_index: None }
    } else if v == 6 {
        VectorEntry { handler: HandlerKind::InvalidOpcode, stack_index: None }
    } else if v == 7 {
        VectorEntry { handler: HandlerKind::DeviceNotAvailable, stack_index: None }
    } else if v == 8 {
        VectorEntry {
            handler: HandlerKind::DoubleFault,
            stack_index: Some(DOUBLE_FAULT_IST_INDEX),
        }
    } else if v == 10 {
        VectorEntry { handler: HandlerKind::InvalidTss, stack_index: None }
    } else if v == 11 {
        VectorEntry { handler: HandlerKind::SegmentNotPresent, stack_index: None }
    } else if v == 12 {
        VectorEntry { handler: HandlerKind::StackSegmentFault, stack_index: None }
    } else if v == 13 {
        VectorEntry { handler: HandlerKind::GeneralProtectionFault, stack_index: None }
    } else if v == 14 {
        VectorEntry { handler: HandlerKind::PageFault, stack_index: None }
    } else if v == 16 {
        VectorEntry { handler: HandlerKind::X87FloatingPoint, stack_index: None }
    } else if v == 17 {
        VectorEntry { handler: HandlerKind::AlignmentCheck, stack_index: None }
    } else if v == 19 {
        VectorEntry { handler: HandlerKind::SimdFloatingPoint, stack_index: None }
    } else if v == 20 {
        VectorEntry { handler: HandlerKind::Virtualization, stack_index: None }
    } else if v == 30 {
        VectorEntry { handler: HandlerKind::SecurityException, stack_index: None }
    } else if v == 32 {
        VectorEntry { handler: HandlerKind::Timer, stack_index: None }
    } else if v == 33 {
        VectorEntry { handler: HandlerKind::Keyboard, stack_index: None }
    } else if v == 44 {
        VectorEntry { handler: HandlerKind::Int44, stack_index: None }
    } else {
        VectorEntry { handler: HandlerKind::DefaultException, stack_index: None }
    }
}

/// The CPU dispatch table: 256 slots, each an optional (handler,
/// stack-index) pair, built once and then activated. The hardware consults
/// it on every interrupt once active.
pub struct VectorTable {
    pub entries: Vec<Option<VectorEntry>>,
    pub active: bool,
}

impl VectorTable {
    /// Every slot of the full table is populated.
    pub open spec fn spec_built(self) -> bool {
        &&& self.entries@.len() == 256
        &&& forall|v: int| 0 <= v < 256 ==> self.entries@[v] is Some
    }

    /// The table holds exactly the bindings of [`spec_idt_entry`].
    pub open spec fn spec_bindings(self) -> bool {
        &&& self.entries@.len() == 256
        &&& forall|v: int| 0 <= v < 256 ==> self.entries@[v] == Some(spec_idt_entry(v))
    }

    /// Build the table: populate all 256 slots with the silent default
    /// handler first, then override the classified exception slots, the two
    /// hardware lines and vector 44, and bind the double-fault slot to its
    /// dedicated alternate stack.
    pub fn build() -> (t: VectorTable)
        ensures
            t.spec_built(),
            t.spec_bindings(),
            !t.active,
    {
        let mut entries: Vec<Option<VectorEntry>> = Vec::new();
        let mut i: usize = 0;
        while i < 256
            invariant
                i <= 256,
                entries@.len() == i,
                forall|v: int|
                    0 <= v < i ==> entries@[v] == Some(
                        VectorEntry { handler: HandlerKind::DefaultException, stack_index: None },
                    ),
            decreases 256 - i,
        {
            entries.push(Some(VectorEntry { handler: HandlerKind::DefaultException, stack_index: None }));
            i += 1;
        }
        entries[0] = Some(VectorEntry { handler: HandlerKind::DivideError, stack_index: None });
        entries[1] = Some(VectorEntry { handler: HandlerKind::Debug, stack_index: None });
        entries[2] = Some(VectorEntry { handler: HandlerKind::NonMaskableInterrupt, stack_index: None });
        entries[3] = Some(VectorEntry { handler: HandlerKind::Breakpoint, stack_index: None });
        entries[4] = Some(VectorEntry { handler: HandlerKind::Overflow, stack_index: None });
        entries[5] = Some(VectorEntry { handler: HandlerKind::BoundRangeExceeded, stack_index: None });
        entries[6] = Some(VectorEntry { handler: HandlerKind::InvalidOpcode, stack_index: None });
        entries[7] = Some(VectorEntry { handler: HandlerKind::DeviceNotAvailable, stack_index: None });
        entries[8] = Some(VectorEntry {
            handler: HandlerKind::DoubleFault,
            stack_index: Some(DOUBLE_FAULT_IST_INDEX),
        });
        entries[10] = Some(VectorEntry { handler: HandlerKind::InvalidTss, stack_index: None });
        entries[11] = Some(VectorEntry { handler: HandlerKind::SegmentNotPresent, stack_index: None });
        entries[12] = Some(VectorEntry { handler: HandlerKind::StackSegmentFault, stack_index: None });
        entries[13] = Some(VectorEntry {
            handler: HandlerKind::GeneralProtectionFault,
            stack_index: None,
        });
        entries[14] = Some(VectorEntry { handler: HandlerKind::PageFault, stack_index: None });
        entries[16] = Some(VectorEntry { handler: HandlerKind::X87FloatingPoint, stack_index: None });
        entries[17] = Some(VectorEntry { handler: HandlerKind::AlignmentCheck, stack_index: None });
        entries[19] = Some(VectorEntry { handler: HandlerKind::SimdFloatingPoint, stack_index: None });
        entries[20] = Some(VectorEntry { handler: HandlerKind::Virtualization, stack_index: None });
        entries[30] = Some(VectorEntry { handler: HandlerKind::SecurityException, stack_index: None });
        entries[32] = Some(VectorEntry { handler: HandlerKind::Timer, stack_index: None });
        entries[33] = Some(VectorEntry { handler: HandlerKind::Keyboard, stack_index: None });
        entries[44] = Some(VectorEntry { handler: HandlerKind::Int44, stack_index: None });
        VectorTable { entries, active: false }
    }

    /// Point the CPU at the table. Must run only after `build` has
    /// populated every slot and before interrupts are globally enabled:
    /// every vector that can ever fire is populated.
    pub fn activate(&mut self)
        requires
            old(self).spec_built(),
        ensures
            final(self).entries == old(self).entries,
            final(self).active,
    {
        self.active = true;
    }
}

/// Build and activate the dispatch table.
pub fn init_idt() -> (t: VectorTable)
    ensures
        t.spec_built(),
        t.spec_bindings(),
        t.active,
{
    let mut t = VectorTable::build();
    t.activate();
    t
}

/// The context dump every exception report ends with: one line per saved
/// register of the interrupted context.
pub open spec fn spec_frame_dump(f: TrapFrame) -> Seq<char> {
    "RIP: "@ + spec_hex_u64(f.instruction_pointer) + "\nCS: "@ + spec_hex_u64(f.code_segment)
        + "\nRFLAGS: "@ + spec_hex_u64(f.cpu_flags) + "\nRSP: "@ + spec_hex_u64(f.stack_pointer)
        + "\nSS: "@ + spec_hex_u64(f.stack_segment) + "\n"@
}

/// Append the context dump.
fn push_frame_dump(out: &mut Vec<char>, f: &TrapFrame)
    ensures
        final(out)@ == old(out)@ + spec_frame_dump(*f),
{
    push_str_chars(out, "RIP: ");
    push_hex_u64(out, f.instruction_pointer);
    push_str_chars(out, "\nCS: ");
    push_hex_u64(out, f.code_segment);
    push_str_chars(out, "\nRFLAGS: ");
    push_hex_u64(out, f.cpu_flags);
    push_str_chars(out, "\nRSP: ");
    push_hex_u64(out, f.stack_pointer);
    push_str_chars(out, "\nSS: ");
    push_hex_u64(out, f.stack_segment);
    push_str_chars(out, "\n");
    proof {
        assert(out@ =~= old(out)@ + spec_frame_dump(*f));
    }
}

/// The report of a recoverable exception without an error code.
pub open spec fn spec_exception_report(label: Seq<char>, f: TrapFrame) -> Seq<char> {
    "EXCEPTION: "@ + label + "\n"@ + spec_frame_dump(f)
}

/// Dump a recoverable exception's context under its label.
fn report_exception(w: &mut Writer, label: &str, frame: &TrapFrame)
    requires
        wf_console(old(w)@),
    ensures
        final(w)@ == spec_write_chars(old(w)@, spec_exception_report(label@, *frame)),
        wf_console(final(w)@),
{
    let mut out: Vec<char> = Vec::new();
    push_str_chars(&mut out, "EXCEPTION: ");
    push_str_chars(&mut out, label);
    push_str_chars(&mut out, "\n");
    push_frame_dump(&mut out, frame);
    proof {
        assert(out@ =~= spec_exception_report(label@, *frame));
    }
    w.write_chars(&out);
}

/// The report of a recoverable exception that carries an error code.
pub open spec fn spec_exception_code_report(label: Seq<char>, ec: u64, f: TrapFrame) -> Seq<char> {
    "EXCEPTION: "@ + label + " errcode "@ + spec_dec_u64(ec) + "\n"@ + spec_frame_dump(f)
}

/// Dump a recoverable exception's context and error code under its label.
fn report_exception_code(w: &mut Writer, label: &str, ec: u64, frame: &TrapFrame)
    requires
        wf_console(old(w)@),
    ensures
        final(w)@ == spec_write_chars(old(w)@, spec_exception_code_report(label@, ec, *frame)),
        wf_console(final(w)@),
{
    let mut out: Vec<char> = Vec::new();
    push_str_chars(&mut out, "EXCEPTION: ");
    push_str_chars(&mut out, label);
    push_str_chars(&mut out, " errcode ");
    push_dec_u64(&mut out, ec);
    push_str_chars(&mut out, "\n");
    push_frame_dump(&mut out, frame);
    proof {
        assert(out@ =~= spec_exception_code_report(label@, ec, *frame));
    }
    w.write_chars(&out);
}

/// A bounded window of memory rendered as space-separated hex bytes, for
/// forensics at a faulting instruction pointer.
pub open spec fn spec_window_dump(ws: Seq<u8>) -> Seq<char>
    decreases ws.len(),
{
    if ws.len() == 0 {
        Seq::empty()
    } else {
        spec_hex_u8(ws[0]) + " "@ + spec_window_dump(ws.drop_first())
    }
}

/// Append a memory window as hex bytes.
fn push_window_dump(out: &mut Vec<char>, ws: &Vec<u8>)
    ensures
        final(out)@ == old(out)@ + spec_window_dump(ws@),
{
    let n = ws.len();
    proof {
        assert(ws@.subrange(0, n as int) =~= ws@);
    }
    let mut i: usize = 0;
    while i < n
        invariant
            i <= n,
            n == ws@.len(),
            out@ + spec_window_dump(ws@.subrange(i as int, n as int)) == old(out)@
                + spec_window_dump(ws@),
        decreases n - i,
    {
        let ghost pre = out@;
        let ghost rest = ws@.subrange(i as int, n as int);
        push_hex_u8(out, ws[i]);
        push_str_chars(out, " ");
        proof {
            assert(rest[0] == ws@[i as int]);
            assert(rest.drop_first() =~= ws@.subrange(i + 1, n as int));
            assert(out@ + spec_window_dump(ws@.subrange(i + 1, n as int)) =~= pre
                + spec_window_dump(rest));
        }
        i += 1;
    }
    proof {
        assert(spec_window_dump(ws@.subrange(n as int, n as int)) =~= Seq::<char>::empty());
        assert(out@ =~= out@ + spec_window_dump(ws@.subrange(n as int, n as int)));
    }
}

/// The page-fault report: the faulting address, the access-violation
/// bitmask with each named bit decoded, the interrupted context, and the
/// forensic window read at the faulting instruction pointer.
pub open spec fn spec_page_fault_report(
    f: TrapFrame,
    accessed_address: u64,
    error_code: u64,
    window: Seq<u8>,
) -> Seq<char> {
    "EXCEPTION: PAGE FAULT\nAccessed Address: "@ + spec_hex_u64(accessed_address)
        + "\nError Code: "@ + spec_hex_u64(error_code) + "\npresent: "@ + spec_bool(
        error_code & 1 != 0,
    ) + ", write: "@ + spec_bool(error_code & 2 != 0) + ", user: "@ + spec_bool(
        error_code & 4 != 0,
    ) + ", reserved: "@ + spec_bool(error_code & 8 != 0) + ", instruction_fetch: "@ + spec_bool(
        error_code & 16 != 0,
    ) + "\n"@ + spec_frame_dump(f) + spec_window_dump(window)
}

/// Handle a page fault: print the faulting address, decode each bit of the
/// access-violation mask, dump the context and a bounded window of bytes at
/// the faulting instruction pointer — then the machine halts. No
/// demand-paging policy exists, so this fault is always fatal by design.
/// The faulting address and the window are read at the hardware edge and
/// handed in as plain values.
pub fn page_fault_handler(
    w: &mut Writer,
    frame: &TrapFrame,
    accessed_address: u64,
    error_code: u64,
    window: &Vec<u8>,
) -> (r: Recovery)
    requires
        wf_console(old(w)@),
    ensures
        final(w)@ == spec_write_chars(
            old(w)@,
            spec_page_fault_report(*frame, accessed_address, error_code, window@),
        ),
        r == Recovery::FatalHalt,
        wf_console(final(w)@),
{
    let mut out: Vec<char> = Vec::new();
    push_str_chars(&mut out, "EXCEPTION: PAGE FAULT\nAccessed Address: ");
    push_hex_u64(&mut out, accessed_address);
    push_str_chars(&mut out, "\nError Code: ");
    push_hex_u64(&mut out, error_code);
    push_str_chars(&mut out, "\npresent: ");
    push_bool(&mut out, error_code & 1 != 0);
    push_str_chars(&mut out, ", write: ");
    push_bool(&mut out, error_code & 2 != 0);
    push_str_chars(&mut out, ", user: ");
    push_bool(&mut out, error_code & 4 != 0);
    push_str_chars(&mut out, ", reserved: ");
    push_bool(&mut out, error_code & 8 != 0);
    push_str_chars(&mut out, ", instruction_fetch: ");
    push_bool(&mut out, error_code & 16 != 0);
    push_str_chars(&mut out, "\n");
    push_frame_dump(&mut out, frame);
    push_window_dump(&mut out, window);
    proof {
        assert(out@ =~= spec_page_fault_report(*frame, accessed_address, error_code, window@));
    }
    w.write_chars(&out);
    Recovery::FatalHalt
}

/// The double-fault report.
pub open spec fn spec_double_fault_report(error_code: u64, f: TrapFrame) -> Seq<char> {
    "EXCEPTION: DOUBLE FAULT (code "@ + spec_dec_u64(error_code) + ")\n"@ + spec_frame_dump(f)
}

/// Handle a double fault: log and abort. The outcome is `FatalHalt` for
/// every input — control never returns to the interrupted context. The
/// handler runs on a dedicated alternate stack, bound when the table is
/// built, because the normal stack may already be corrupt when this fault
/// fires.
pub fn double_fault_handler(w: &mut Writer, frame: &TrapFrame, error_code: u64) -> (r: Recovery)
    requires
        wf_console(old(w)@),
    ensures
        final(w)@ == spec_write_chars(old(w)@, spec_double_fault_report(error_code, *frame)),
        r == Recovery::FatalHalt,
        wf_console(final(w)@),
{
    let mut out: Vec<char> = Vec::new();
    push_str_chars(&mut out, "EXCEPTION: DOUBLE FAULT (code ");
    push_dec_u64(&mut out, error_code);
    push_str_chars(&mut out, ")\n");
    push_frame_dump(&mut out, frame);
    proof {
        assert(out@ =~= spec_double_fault_report(error_code, *frame));
    }
    w.write_chars(&out);
    Recovery::FatalHalt
}

/// The segment-not-present report: the error code and its decoded selector
/// fields — external bit, table bits, index bits — then the context and a
/// forensic window at the faulting instruction pointer.
pub open spec fn spec_segment_not_present_report(
    error_code: u64,
    f: TrapFrame,
    window: Seq<u8>,
) -> Seq<char> {
    "EXCEPTION: segment_not_present errcode "@ + spec_dec_u64(error_code) + "\nExternal?: "@
        + spec_dec_u64(error_code & 1) + " Table: "@ + spec_dec_u64(error_code & 6) + " Index: "@
        + spec_dec_u64((error_code & 0x1f8) >> 3) + "\n"@ + spec_frame_dump(f) + spec_window_dump(
        window,
    )
}

/// Handle a segment-not-present fault: dump the selector's decoded fields
/// from the error code, then restart the kernel's entry point as a coarse
/// recovery. This is a documented stop-gap, not a verified-safe recovery:
/// the restart re-enters initialization while state held by the original
/// call stack may still be live.
pub fn segment_not_present_handler(
    w: &mut Writer,
    frame: &TrapFrame,
    error_code: u64,
    window: &Vec<u8>,
) -> (r: Recovery)
    requires
        wf_console(old(w)@),
    ensures
        final(w)@ == spec_write_chars(
            old(w)@,
            spec_segment_not_present_report(error_code, *frame, window@),
        ),
        r == Recovery::Restart,
        wf_console(final(w)@),
{
    let mut out: Vec<char> = Vec::new();
    push_str_chars(&mut out, "EXCEPTION: segment_not_present errcode ");
    push_dec_u64(&mut out, error_code);
    push_str_chars(&mut out, "\nExternal?: ");
    push_dec_u64(&mut out, error_code & 1);
    push_str_chars(&mut out, " Table: ");
    push_dec_u64(&mut out, error_code & 6);
    push_str_chars(&mut out, " Index: ");
    push_dec_u64(&mut out, (error_code & 0x1f8) >> 3);
    push_str_chars(&mut out, "\n");
    push_frame_dump(&mut out, frame);
    push_window_dump(&mut out, window);
    proof {
        assert(out@ =~= spec_segment_not_present_report(error_code, *frame, window@));
    }
    w.write_chars(&out);
    Recovery::Restart
}

/// The silent default for unclassified or reserved vectors: a no-op
/// return, preventing an unhandled vector from escalating into a double
/// fault.
pub fn default_exception_handler(_frame: &TrapFrame) -> (r: Recovery)
    ensures
        r == Recovery::Resume,
{
    Recovery::Resume
}

/// The silent default for unclassified hardware interrupts.
pub fn default_interrupt_handler(_frame: &TrapFrame) -> (r: Recovery)
    ensures
        r == Recovery::Resume,
{
    Recovery::Resume
}

/// Handle vector 44, bound for some hardware: log and resume.
pub fn int_44_handler(w: &mut Writer, _frame: &TrapFrame) -> (r: Recovery)
    requires
        wf_console(old(w)@),
    ensures
        final(w)@ == spec_write_chars(old(w)@, "interrupt 44\n"@),
        r == Recovery::Resume,
        wf_console(final(w)@),
{
    w.write_string("interrupt 44\n");
    Recovery::Resume
}

/// Handle a breakpoint trap: dump the context and resume.
pub fn breakpoint_handler(w: &mut Writer, frame: &TrapFrame) -> (r: Recovery)
    requires
        wf_console(old(w)@),
    ensures
        final(w)@ == spec_write_chars(old(w)@, spec_exception_report("BREAKPOINT"@, *frame)),
        r == Recovery::Resume,
        wf_console(final(w)@),
{
    report_exception(w, "BREAKPOINT", frame);
    Recovery::Resume
}

/// Handle a divide error: dump the context and resume.
pub fn divide_error_handler(w: &mut Writer, frame: &TrapFrame) -> (r: Recovery)
    requires
        wf_console(old(w)@),
    ensures
        final(w)@ == spec_write_chars(old(w)@, spec_exception_report("Divide Error"@, *frame)),
        r == Recovery::Resume,
        wf_console(final(w)@),
{
    report_exception(w, "Divide Error", frame);
    Recovery::Resume
}

/// Handle a debug trap: dump the context and resume.
pub fn debug_handler(w: &mut Writer, frame: &TrapFrame) -> (r: Recovery)
    requires
        wf_console(old(w)@),
    ensures
        final(w)@ == spec_write_chars(old(w)@, spec_exception_report("Debug Error"@, *frame)),
        r == Recovery::Resume,
        wf_console(final(w)@),
{
    report_exception(w, "Debug Error", frame);
    Recovery::Resume
}

/// Handle a non-maskable interrupt: dump the context and resume.
pub fn non_maskable_interrupt_handler(w: &mut Writer, frame: &TrapFrame) -> (r: Recovery)
    requires
        wf_console(old(w)@),
    ensures
        final(w)@ == spec_write_chars(
            old(w)@,
            spec_exception_report("non_maskable_interrupt Error"@, *frame),
        ),
        r == Recovery::Resume,
        wf_console(final(w)@),
{
    report_exception(w, "non_maskable_interrupt Error", frame);
    Recovery::Resume
}

/// Handle an overflow trap: dump the context and resume.
pub fn overflow_handler(w: &mut Writer, frame: &TrapFrame) -> (r: Recovery)
    requires
        wf_console(old(w)@),
    ensures
        final(w)@ == spec_write_chars(old(w)@, spec_exception_report("Overflow Error"@, *frame)),
        r == Recovery::Resume,
        wf_console(final(w)@),
{
    report_exception(w, "Overflow Error", frame);
    Recovery::Resume
}

/// Handle a bound-range-exceeded fault: dump the context and resume.
pub fn bound_range_exceeded_handler(w: &mut Writer, frame: &TrapFrame) -> (r: Recovery)
    requires
        wf_console(old(w)@),
    ensures
        final(w)@ == spec_write_chars(
            old(w)@,
            spec_exception_report("bound_range_exceeded"@, *frame),
        ),
        r == Recovery::Resume,
        wf_console(final(w)@),
{
    report_exception(w, "bound_range_exceeded", frame);
    Recovery::Resume
}

/// Handle an invalid-opcode fault: dump the context and resume.
pub fn invalid_opcode_handler(w: &mut Writer, frame: &TrapFrame) -> (r: Recovery)
    requires
        wf_console(old(w)@),
    ensures
        final(w)@ == spec_write_chars(old(w)@, spec_exception_report("invalid_opcode"@, *frame)),
        r == Recovery::Resume,
        wf_console(final(w)@),
{
    report_exception(w, "invalid_opcode", frame);
    Recovery::Resume
}

/// Handle a device-not-available fault: dump the context and resume.
pub fn device_not_available_handler(w: &mut Writer, frame: &TrapFrame) -> (r: Recovery)
    requires
        wf_console(old(w)@),
    ensures
        final(w)@ == spec_write_chars(
            old(w)@,
            spec_exception_report("device_not_available"@, *frame),
        ),
        r == Recovery::Resume,
        wf_console(final(w)@),
{
    report_exception(w, "device_not_available", frame);
    Recovery::Resume
}

/// Handle an invalid-TSS fault: dump the context and error code, resume.
pub fn invalid_tss_handler(w: &mut Writer, frame: &TrapFrame, ec: u64) -> (r: Recovery)
    requires
        wf_console(old(w)@),
    ensures
        final(w)@ == spec_write_chars(
            old(w)@,
            spec_exception_code_report("invalid_tss"@, ec, *frame),
        ),
        r == Recovery::Resume,
        wf_console(final(w)@),
{
    report_exception_code(w, "invalid_tss", ec, frame);
    Recovery::Resume
}

/// Handle a stack-segment fault: dump the context and error code, resume.
pub fn stack_segment_fault_handler(w: &mut Writer, frame: &TrapFrame, ec: u64) -> (r: Recovery)
    requires
        wf_console(old(w)@),
    ensures
        final(w)@ == spec_write_chars(
            old(w)@,
            spec_exception_code_report("stack_segment_fault"@, ec, *frame),
        ),
        r == Recovery::Resume,
        wf_console(final(w)@),
{
    report_exception_code(w, "stack_segment_fault", ec, frame);
    Recovery::Resume
}

/// Handle a general-protection fault: dump the context and error code,
/// resume.
pub fn general_protection_fault_handler(w: &mut Writer, frame: &TrapFrame, ec: u64) -> (r:
    Recovery)
    requires
        wf_console(old(w)@),
    ensures
        final(w)@ == spec_write_chars(
            old(w)@,
            spec_exception_code_report("general_protection_fault"@, ec, *frame),
        ),
        r == Recovery::Resume,
        wf_console(final(w)@),
{
    report_exception_code(w, "general_protection_fault", ec, frame);
    Recovery::Resume
}

/// Handle an x87 floating-point fault: dump the context and resume.
pub fn x87_floating_point_handler(w: &mut Writer, frame: &TrapFrame) -> (r: Recovery)
    requires
        wf_console(old(w)@),
    ensures
        final(w)@ == spec_write_chars(
            old(w)@,
            spec_exception_report("x87_floating_point"@, *frame),
        ),
        r == Recovery::Resume,
        wf_console(final(w)@),
{
    report_exception(w, "x87_floating_point", frame);
    Recovery::Resume
}

/// Handle an alignment-check fault: dump the context and error code,
/// resume.
pub fn alignment_check_handler(w: &mut Writer, frame: &TrapFrame, ec: u64) -> (r: Recovery)
    requires
        wf_console(old(w)@),
    ensures
        final(w)@ == spec_write_chars(
            old(w)@,
            spec_exception_code_report("alignment_check"@, ec, *frame),
        ),
        r == Recovery::Resume,
        wf_console(final(w)@),
{
    report_exception_code(w, "alignment_check", ec, frame);
    Recovery::Resume
}

/// Handle a SIMD floating-point fault: dump the context and resume.
pub fn simd_floating_point_handler(w: &mut Writer, frame: &TrapFrame) -> (r: Recovery)
    requires
        wf_console(old(w)@),
    ensures
        final(w)@ == spec_write_chars(
            old(w)@,
            spec_exception_report("simd_floating_point"@, *frame),
        ),
        r == Recovery::Resume,
        wf_console(final(w)@),
{
    report_exception(w, "simd_floating_point", frame);
    Recovery::Resume
}

/// Handle a virtualization fault: dump the context and resume.
pub fn virtualization_handler(w: &mut Writer, frame: &TrapFrame) -> (r: Recovery)
    requires
        wf_console(old(w)@),
    ensures
        final(w)@ == spec_write_chars(old(w)@, spec_exception_report("virtualization"@, *frame)),
        r == Recovery::Resume,
        wf_console(final(w)@),
{
    report_exception(w, "virtualization", frame);
    Recovery::Resume
}

/// Handle a security exception: dump the context and error code, resume.
pub fn security_exception_handler(w: &mut Writer, frame: &TrapFrame, ec: u64) -> (r: Recovery)
    requires
        wf_console(old(w)@),
    ensures
        final(w)@ == spec_write_chars(
            old(w)@,
            spec_exception_code_report("security_exception"@, ec, *frame),
        ),
        r == Recovery::Resume,
        wf_console(final(w)@),
{
    report_exception_code(w, "security_exception", ec, frame);
    Recovery::Resume
}

/// Handle a timer tick: blink the cursor cell — write an underscore and at
/// once erase it — and acknowledge the line.
pub fn timer_interrupt_handler(w: &mut Writer, pics: &ControllerPair) -> (eoi: EoiTarget)
    requires
        wf_console(old(w)@),
        pics.spec_wf(),
        pics.initialized,
        pics.spec_handles(spec_interrupt_vector(InterruptIndex::Timer)),
    ensures
        final(w)@ == spec_backspace(spec_write_chars(old(w)@, "_"@), true),
        eoi == pics.spec_eoi(spec_interrupt_vector(InterruptIndex::Timer)),
        wf_console(final(w)@),
{
    w.write_string("_");
    backspace(w, true);
    pics.acknowledge(InterruptIndex::Timer.as_u8())
}

/// A hardware effect that a completed command asks for. The keyboard
/// handler cannot perform these itself — they touch the CPU or raw memory
/// — so it hands them out; the surrounding shell performs the effect and
/// then emits the fresh prompt (for the register read, after writing the
/// report).
#[derive(Debug, Clone, Copy, PartialEq, Eq, Structural)]
pub enum PendingEffect {
    /// Raise a debug breakpoint trap.
    Breakpoint,
    /// Dereference an invalid address to deliberately fault.
    PageFault,
    /// Read the named hardware configuration register and report it.
    ReadMsr,
}

/// The line handed to the command dispatcher when a row is completed: the
/// bottom row's characters after the leading prompt marker, NUL-terminated.
pub open spec fn spec_prev_line(g: Seq<ScreenChar>) -> Seq<char> {
    Seq::new(
        BUFFER_WIDTH as nat,
        |i: int|
            {
                if i < BUFFER_WIDTH - 1 {
                    g[LAST_ROW_START + i + 1].ascii_character as char
                } else {
                    '\0'
                }
            },
    )
}

/// Echo the non-NUL characters of a completed line, from position `i` on.
pub open spec fn spec_echo(s: ConsoleState, line: Seq<char>, i: int) -> ConsoleState
    decreases line.len() - i,
{
    if i < 0 || i >= line.len() {
        s
    } else if line[i] == '\0' {
        spec_echo(s, line, i + 1)
    } else {
        spec_echo(spec_write_byte(s, sanitize_char(line[i])), line, i + 1)
    }
}

/// The console output a completed line's command produces, followed by the
/// fresh prompt glyph — except for the hardware effects, whose prompt is
/// emitted by the shell once the effect is done.
pub open spec fn spec_cmd_console(s: ConsoleState, line: Seq<char>, info: BootInfoView)
    -> ConsoleState {
    match spec_handle_cmd(line) {
        CmdAction::Help => spec_write_byte(
            spec_write_chars(s, spec_help_text()),
            sanitize_char(PROMPT),
        ),
        CmdAction::BootInfo => spec_write_byte(
            spec_write_chars(s, spec_bootinfo_report(info)),
            sanitize_char(PROMPT),
        ),
        CmdAction::Nothing => spec_write_byte(s, sanitize_char(PROMPT)),
        _ => s,
    }
}

/// The diagnostic echoed for a non-printable key the console does not act
/// on.
pub open spec fn spec_raw_echo(code: u8) -> Seq<char> {
    "(key "@ + spec_dec_u64(code as u64) + ")"@
}

/// The console after dispatching one decoded key: backspace and delete
/// erase, newline completes the
/// line and runs its command, printable characters are written at the
/// cursor, the arrow keys move the cursor within the row, and any other
/// raw key is echoed as a harmless diagnostic.
pub open spec fn spec_key_console(s: ConsoleState, info: BootInfoView, k: KeyPress)
    -> ConsoleState {
    match k {
        KeyPress::Char(c) => {
            if c == '\u{8}' {
                spec_backspace(s, true)
            } else if c == '\u{7f}' {
                spec_backspace(s, false)
            } else if c == '\n' {
                let line = spec_prev_line(s.grid);
                let s1 = spec_write_byte(s, 10);
                let s2 = spec_write_byte(s1, sanitize_char('<'));
                let s3 = spec_echo(s2, line, 0);
                spec_cmd_console(s3, line, info)
            } else {
                spec_write_byte(s, sanitize_char(c))
            }
        },
        KeyPress::ArrowLeft => spec_cursor_left(s),
        KeyPress::ArrowRight => spec_cursor_right(s),
        KeyPress::OtherRaw(code) => spec_write_chars(s, spec_raw_echo(code)),
    }
}

/// The hardware effect one decoded key leaves pending: only a newline that
/// completes one of the hardware commands leaves one.
pub open spec fn spec_key_pending(s: ConsoleState, k: KeyPress) -> Option<PendingEffect> {
    match k {
        KeyPress::Char(c) => {
            if c == '\n' {
                match spec_handle_cmd(spec_prev_line(s.grid)) {
                    CmdAction::Breakpoint => Some(PendingEffect::Breakpoint),
                    CmdAction::PageFault => Some(PendingEffect::PageFault),
                    CmdAction::ReadMsr => Some(PendingEffect::ReadMsr),
                    _ => None,
                }
            } else {
                None
            }
        },
        _ => None,
    }
}

/// A decoded left-arrow is a raw-key event, distinct from every character
/// event, and dispatching it moves the cursor left by exactly one column,
/// clamped at 0; the grid is untouched.
pub proof fn lemma_arrow_left_moves_cursor_only(s: ConsoleState, info: BootInfoView, c: char)
    requires
        wf_console(s),
    ensures
        KeyPress::ArrowLeft != KeyPress::Char(c),
        spec_key_console(s, info, KeyPress::ArrowLeft) == spec_cursor_left(s),
        spec_cursor_left(s).grid == s.grid,
        spec_cursor_left(s).col == if s.col > 0 {
            (s.col - 1) as nat
        } else {
            0 as nat
        },
{
}

/// Write the fresh prompt glyph that opens an input line.
pub fn emit_prompt(w: &mut Writer)
    requires
        wf_console(old(w)@),
    ensures
        final(w)@ == spec_write_byte(old(w)@, sanitize_char(PROMPT)),
        wf_console(final(w)@),
{
    w.write_char(PROMPT);
}

/// Dispatch one decoded key onto the console and the command pipeline; the
/// result is the hardware effect, if any, that the shell must perform.
pub fn apply_key(w: &mut Writer, info: &OSInfoStore, key: KeyPress) -> (pending: Option<
    PendingEffect,
>)
    requires
        wf_console(old(w)@),
    ensures
        final(w)@ == spec_key_console(old(w)@, info.bootinfo, key),
        pending == spec_key_pending(old(w)@, key),
        wf_console(final(w)@),
{
    match key {
        KeyPress::Char(c) => {
            if c == '\u{8}' {
                backspace(w, true);
                None
            } else if c == '\u{7f}' {
                backspace(w, false);
                None
            } else if c == '\n' {
                let mut row: [char; 80] = ['\0'; 80];
                w.get_prev_line(&mut row);
                let mut line: [char; 80] = ['\0'; 80];
                let mut i: usize = 0;
                while i < 79
                    invariant
                        i <= 79,
                        forall|j: int| 0 <= j < i ==> line@[j] == row@[j + 1],
                        forall|j: int| i <= j < 80 ==> line@[j] == '\0',
                        forall|j: int|
                            0 <= j < 80 ==> row@[j] == (
                            w@.grid[LAST_ROW_START + j].ascii_character as char),
                        wf_console(w@),
                        w == old(w),
                    decreases 79 - i,
                {
                    line[i] = row[i + 1];
                    i += 1;
                }
                proof {
                    assert(line@ =~= spec_prev_line(old(w)@.grid));
                }
                let ghost line_seq = line@;
                w.write_byte(10);
                w.write_char('<');
                let ghost s2 = w@;
                let mut j: usize = 0;
                while j < 80
                    invariant
                        j <= 80,
                        line_seq == line@,
                        line_seq.len() == 80,
                        wf_console(w@),
                        spec_echo(s2, line_seq, 0) == spec_echo(w@, line_seq, j as int),
                    decreases 80 - j,
                {
                    if line[j] != '\0' {
                        w.write_char(line[j]);
                    }
                    j += 1;
                }
                let action = handle_cmd(&line);
                match action {
                    CmdAction::Help => {
                        let h = help_text();
                        w.write_string(h);
                        w.write_char(PROMPT);
                        None
                    },
                    CmdAction::BootInfo => {
                        crate::bootinfo_report(w, info);
                        w.write_char(PROMPT);
                        None
                    },
                    CmdAction::Nothing => {
                        w.write_char(PROMPT);
                        None
                    },
                    CmdAction::Breakpoint => Some(PendingEffect::Breakpoint),
                    CmdAction::PageFault => Some(PendingEffect::PageFault),
                    CmdAction::ReadMsr => Some(PendingEffect::ReadMsr),
                }
            } else {
                w.write_char(c);
                None
            }
        },
        KeyPress::ArrowLeft => {
            cursor_left(w);
            None
        },
        KeyPress::ArrowRight => {
            cursor_right(w);
            None
        },
        KeyPress::OtherRaw(code) => {
            let mut out: Vec<char> = Vec::new();
            push_str_chars(&mut out, "(key ");
            push_dec_u64(&mut out, code as u64);
            push_str_chars(&mut out, ")");
            proof {
                assert(out@ =~= spec_raw_echo(code));
            }
            w.write_chars(&out);
            None
        },
    }
}

/// Handle one keyboard interrupt: feed the one byte read from the keyboard
/// data port to the decoder, dispatch the decoded key — if the byte
/// completed one — onto the console and the command pipeline, and
/// acknowledge the line. The byte itself is read at the hardware edge and
/// handed in as a plain value.
pub fn keyboard_interrupt_handler(
    w: &mut Writer,
    dec: &mut KeyDecoder,
    pics: &ControllerPair,
    info: &OSInfoStore,
    scancode: u8,
) -> (r: (Option<PendingEffect>, EoiTarget))
    requires
        wf_console(old(w)@),
        pics.spec_wf(),
        pics.initialized,
        pics.spec_handles(spec_interrupt_vector(InterruptIndex::Keyboard)),
    ensures
        fed_bytes(*final(dec)) == fed_bytes(*old(dec)).push(scancode),
        match key_decode(fed_bytes(*old(dec)).push(scancode)) {
            Some(k) => final(w)@ == spec_key_console(old(w)@, info.bootinfo, k) && r.0
                == spec_key_pending(old(w)@, k),
            None => final(w)@ == old(w)@ && r.0 is None,
        },
        r.1 == pics.spec_eoi(spec_interrupt_vector(InterruptIndex::Keyboard)),
        wf_console(final(w)@),
{
    let pending = match dec.feed(scancode) {
        Some(k) => apply_key(w, info, k),
        None => None,
    };
    let eoi = pics.acknowledge(InterruptIndex::Keyboard.as_u8());
    (pending, eoi)
}

} // verus!

