//! The interrupt-driven core of a minimal kernel: the vector table and its
//! exception handlers, the chained interrupt-controller protocol, and the
//! keyboard-decode, console-mutation and command-dispatch pipeline.
//!
//! Every hardware edge — port reads, register reads, the memory-mapped
//! display — is taken as plain values at the boundary; everything that
//! decides or computes is verified here.

use vstd::prelude::*;

pub mod cmd;
pub mod interrupts;
pub mod keyboard;
pub mod render;
pub mod strutils;
pub mod vga_buffer;

use crate::render::{spec_hex_u64, spec_bin_u64, spec_dec_u64, push_hex_u64, push_bin_u64,
    push_dec_u64, push_str_chars};
use crate::vga_buffer::{Writer, wf_console, spec_write_chars};

verus! {

/// The boot-information snapshot the platform loader hands over: the
/// physical-memory mapping offset and the number of memory-map regions.
#[derive(Debug, Clone, Copy, PartialEq, Eq, Structural)]
pub struct BootInfoView {
    pub physical_memory_offset: u64,
    pub memory_regions: u64,
}

/// The retained boot-information record, shown by the `bootinfo` command.
#[derive(Debug, Clone, Copy, PartialEq, Eq, Structural)]
pub struct OSInfoStore {
    pub bootinfo: BootInfoView,
}

/// The line the `bootinfo` command prints.
pub open spec fn spec_bootinfo_report(info: BootInfoView) -> Seq<char> {
    "BootInfo { physical_memory_offset: "@ + spec_hex_u64(info.physical_memory_offset)
        + ", memory_regions: "@ + spec_dec_u64(info.memory_regions) + " }\n"@
}

/// Write the boot-information snapshot to the console.
pub fn bootinfo_report(w: &mut Writer, info: &OSInfoStore)
    requires
        wf_console(old(w)@),
    ensures
        final(w)@ == spec_write_chars(old(w)@, spec_bootinfo_report(info.bootinfo)),
        wf_console(final(w)@),
{
    let mut out: Vec<char> = Vec::new();
    push_str_chars(&mut out, "BootInfo { physical_memory_offset: ");
    push_hex_u64(&mut out, info.bootinfo.physical_memory_offset);
    push_str_chars(&mut out, ", memory_regions: ");
    push_dec_u64(&mut out, info.bootinfo.memory_regions);
    push_str_chars(&mut out, " }\n");
    proof {
        assert(out@ =~= spec_bootinfo_report(info.bootinfo));
    }
    w.write_chars(&out);
}

/// The 64-bit value of a register read as a low and a high half: the high
/// half sits in the upper 32 bits.
pub open spec fn spec_msr_value(lo: u32, hi: u32) -> u64 {
    ((hi as u64) << 32) | (lo as u64)
}

/// What the register-read command prints for a register read as a low and
/// a high half: the register's 64-bit value, in hex and in binary, each on
/// its own line.
pub open spec fn spec_msr_report(lo: u32, hi: u32) -> Seq<char> {
    spec_hex_u64(spec_msr_value(lo, hi)) + "\n"@ + spec_bin_u64(spec_msr_value(lo, hi)) + "\n"@
}

/// Write a hardware register's 64-bit value to the console, in hex and in
/// binary. The register itself is read at the hardware edge; this takes
/// the two halves the read instruction leaves.
pub fn msr_report(w: &mut Writer, lo: u32, hi: u32)
    requires
        wf_console(old(w)@),
    ensures
        final(w)@ == spec_write_chars(old(w)@, spec_msr_report(lo, hi)),
        wf_console(final(w)@),
{
    let v: u64 = ((hi as u64) << 32) | (lo as u64);
    let mut out: Vec<char> = Vec::new();
    push_hex_u64(&mut out, v);
    push_str_chars(&mut out, "\n");
    push_bin_u64(&mut out, v);
    push_str_chars(&mut out, "\n");
    proof {
        assert(out@ =~= spec_msr_report(lo, hi));
    }
    w.write_chars(&out);
}

} // verus!
