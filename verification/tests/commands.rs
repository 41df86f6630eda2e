use hash_os::cmd::{handle_cmd, help_text, CmdAction, IA32_APIC_BASE_MSR, PROMPT};
use hash_os::strutils::strcmpl;

fn line_of(s: &str) -> [char; 80] {
    let mut line: [char; 80] = ['\0'; 80];
    for (i, c) in s.chars().enumerate() {
        line[i] = c;
    }
    line
}

#[test]
fn help_matches_help_command() {
    assert_eq!(handle_cmd(&line_of("help")), CmdAction::Help);
}

#[test]
fn helpme_still_matches_help() {
    // The documented prefix policy: only the keyword's own length is
    // compared, so an input that merely starts with a keyword matches it.
    assert_eq!(handle_cmd(&line_of("helpme")), CmdAction::Help);
}

#[test]
fn unknown_input_is_a_silent_noop() {
    assert_eq!(handle_cmd(&line_of("xyz")), CmdAction::Nothing);
    assert_eq!(handle_cmd(&line_of("")), CmdAction::Nothing);
}

#[test]
fn each_keyword_matches_its_action() {
    assert_eq!(handle_cmd(&line_of("break")), CmdAction::Breakpoint);
    assert_eq!(handle_cmd(&line_of("pagefault")), CmdAction::PageFault);
    assert_eq!(handle_cmd(&line_of("bootinfo")), CmdAction::BootInfo);
    assert_eq!(handle_cmd(&line_of("msr_acpi")), CmdAction::ReadMsr);
}

#[test]
fn near_misses_do_not_match() {
    assert_eq!(handle_cmd(&line_of("hel")), CmdAction::Nothing);
    assert_eq!(handle_cmd(&line_of("brea")), CmdAction::Nothing);
    assert_eq!(handle_cmd(&line_of("bootinf")), CmdAction::Nothing);
}

#[test]
fn strcmpl_compares_bounded_prefix() {
    assert!(strcmpl(&line_of("help me"), "help", 4));
    assert!(!strcmpl(&line_of("hexp"), "help", 4));
    assert!(strcmpl(&line_of("anything"), "whatever", 0));
}

#[test]
fn help_text_lists_every_command() {
    let h = help_text();
    assert!(h.contains("help"));
    assert!(h.contains("break"));
    assert!(h.contains("pagefault"));
    assert!(h.contains("bootinfo"));
    assert!(h.contains("msr_acpi"));
}

#[test]
fn prompt_and_msr_id_are_fixed() {
    assert_eq!(PROMPT, '>');
    assert_eq!(IA32_APIC_BASE_MSR, 0x1B);
}
