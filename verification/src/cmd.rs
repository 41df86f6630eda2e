//! Command dispatcher: match a completed, NUL-padded input line against the
//! known keywords and decide which effect to trigger.
//!
//! Matching is a literal comparison of the input's first `K` characters
//! against each keyword, where `K` is that keyword's own length — so an
//! input that merely starts with a recognized keyword still matches it.

use vstd::prelude::*;
use crate::strutils::{prefix_eq, strcmpl};

verus! {

/// The prompt glyph that opens every input line.
pub const PROMPT: char = '>';

/// Numeric id of the hardware configuration register that the register-read
/// command reports.
pub const IA32_APIC_BASE_MSR: u32 = 0x1B;

/// The effect a completed input line asks for. `Nothing` is the silent
/// no-op for unmatched input.
#[derive(Debug, Clone, Copy, PartialEq, Eq, Structural)]
pub enum CmdAction {
    /// Print the help text.
    Help,
    /// Raise a debug breakpoint trap.
    Breakpoint,
    /// Dereference an invalid address to deliberately fault.
    PageFault,
    /// Print the stored boot-information snapshot.
    BootInfo,
    /// Read and print the named hardware configuration register.
    ReadMsr,
    /// Unmatched input: no effect.
    Nothing,
}

/// The `help` keyword.
pub open spec fn kw_help() -> Seq<char> {
    seq!['h', 'e', 'l', 'p']
}

/// The `break` keyword.
pub open spec fn kw_break() -> Seq<char> {
    seq!['b', 'r', 'e', 'a', 'k']
}

/// The `pagefault` keyword.
pub open spec fn kw_pagefault() -> Seq<char> {
    seq!['p', 'a', 'g', 'e', 'f', 'a', 'u', 'l', 't']
}

/// The `bootinfo` keyword.
pub open spec fn kw_bootinfo() -> Seq<char> {
    seq!['b', 'o', 'o', 't', 'i', 'n', 'f', 'o']
}

/// The `msr_acpi` keyword.
pub open spec fn kw_msr_acpi() -> Seq<char> {
    seq!['m', 's', 'r', '_', 'a', 'c', 'p', 'i']
}

/// A line matches a keyword when its first characters, as many as the
/// keyword has, equal the keyword.
pub open spec fn spec_matches(line: Seq<char>, kw: Seq<char>) -> bool {
    prefix_eq(line, kw, kw.len() as int)
}

/// Which effect a line asks for: the first keyword it matches, or
/// `Nothing`.
pub open spec fn spec_handle_cmd(line: Seq<char>) -> CmdAction {
    if spec_matches(line, kw_help()) {
        CmdAction::Help
    } else if spec_matches(line, kw_break()) {
        CmdAction::Breakpoint
    } else if spec_matches(line, kw_pagefault()) {
        CmdAction::PageFault
    } else if spec_matches(line, kw_bootinfo()) {
        CmdAction::BootInfo
    } else if spec_matches(line, kw_msr_acpi()) {
        CmdAction::ReadMsr
    } else {
        CmdAction::Nothing
    }
}

/// Decide which effect a completed input line asks for. Unmatched input
/// yields `Nothing`: no output and no state change.
pub fn handle_cmd(input: &[char; 80]) -> (r: CmdAction)
    ensures
        r == spec_handle_cmd(input@),
{
    proof {
        reveal_strlit("help");
        reveal_strlit("break");
        reveal_strlit("pagefault");
        reveal_strlit("bootinfo");
        reveal_strlit("msr_acpi");
        assert("help"@ =~= kw_help());
        assert("break"@ =~= kw_break());
        assert("pagefault"@ =~= kw_pagefault());
        assert("bootinfo"@ =~= kw_bootinfo());
        assert("msr_acpi"@ =~= kw_msr_acpi());
    }
    if strcmpl(input, "help", 4) {
        CmdAction::Help
    } else if strcmpl(input, "break", 5) {
        CmdAction::Breakpoint
    } else if strcmpl(input, "pagefault", 9) {
        CmdAction::PageFault
    } else if strcmpl(input, "bootinfo", 8) {
        CmdAction::BootInfo
    } else if strcmpl(input, "msr_acpi", 8) {
        CmdAction::ReadMsr
    } else {
        CmdAction::Nothing
    }
}

/// The help text that the `help` command prints.
pub open spec fn spec_help_text() -> Seq<char> {
    (
    "help: show help\nbreak: trigger breakpoint (c3)\npagefault: trigger pagefault\nbootinfo: show boot info\nmsr_acpi: get MSR IA32_APIC_BASE_MSR\nThe QEMU escape key is Ctrl-Alt-G\n")@
}

/// The help text that the `help` command prints.
pub fn help_text() -> (s: &'static str)
    ensures
        s@ == spec_help_text(),
{
    "help: show help\nbreak: trigger breakpoint (c3)\npagefault: trigger pagefault\nbootinfo: show boot info\nmsr_acpi: get MSR IA32_APIC_BASE_MSR\nThe QEMU escape key is Ctrl-Alt-G\n"
}

} // verus!
