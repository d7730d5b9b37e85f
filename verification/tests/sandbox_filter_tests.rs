use antex::sandbox_filter::{denied_syscalls, filter_bytes, filter_instructions};

#[test]
fn socket_is_denied_only_when_the_network_is() {
    assert_eq!(denied_syscalls(&[101, 165], 41, true), vec![101, 165, 41]);
    assert_eq!(denied_syscalls(&[101, 165], 41, false), vec![101, 165]);
}

#[test]
fn the_program_checks_each_denied_syscall_and_allows_the_rest() {
    let program = filter_instructions(&[101, 41]);
    assert_eq!(program.len(), 6 + 4 + 1);
    assert_eq!(program[0], (0x20, 0, 0, 4));
    assert_eq!(program[1], (0x15, 1, 0, 0xc000003e));
    assert_eq!(program[4], (0x45, 0, 1, 0x40000000));
    assert_eq!(program[6], (0x15, 0, 1, 101));
    assert_eq!(program[7], (0x06, 0, 0, 0x00050001));
    assert_eq!(program[8], (0x15, 0, 1, 41));
    assert_eq!(program[10], (0x06, 0, 0, 0x7fff0000));
}

#[test]
fn instructions_are_eight_little_endian_bytes() {
    let bytes = filter_bytes(&[(0x15, 1, 0, 0xc000003e), (0x06, 0, 0, 0x7fff0000)]);
    assert_eq!(bytes, vec![0x15, 0, 1, 0, 0x3e, 0, 0, 0xc0, 0x06, 0, 0, 0, 0, 0, 0xff, 0x7f]);
}
