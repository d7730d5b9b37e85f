//! The seccomp program of the Linux sandbox: classic BPF instructions that
//! kill a process of the wrong architecture or ABI, fail the denied system
//! calls with `EPERM`, and allow the rest.

use vstd::prelude::*;

verus! {

/// One classic BPF instruction: operation code, jump offsets when true and
/// when false, and operand.
pub type FilterInstruction = (u16, u8, u8, u32);

/// The instructions before the syscall checks: load the architecture, kill
/// the process unless it is x86-64, load the syscall number, and kill the
/// process for x32 syscalls.
pub open spec fn filter_prologue() -> Seq<FilterInstruction> {
    seq![
        (0x20u16, 0u8, 0u8, 4u32),
        (0x15u16, 1u8, 0u8, 0xc000003eu32),
        (0x06u16, 0u8, 0u8, 0x80000000u32),
        (0x20u16, 0u8, 0u8, 0u32),
        (0x45u16, 0u8, 1u8, 0x40000000u32),
        (0x06u16, 0u8, 0u8, 0x80000000u32),
    ]
}

/// The check of one denied syscall: when the number matches, fail with `EPERM`.
pub open spec fn deny_check(syscall: u32) -> Seq<FilterInstruction> {
    seq![(0x15u16, 0u8, 1u8, syscall), (0x06u16, 0u8, 0u8, 0x00050001u32)]
}

/// The checks of the denied syscalls, in order.
pub open spec fn deny_checks(denied: Seq<u32>) -> Seq<FilterInstruction>
    decreases denied.len(),
{
    if denied.len() == 0 {
        Seq::empty()
    } else {
        deny_checks(denied.drop_last()) + deny_check(denied.last())
    }
}

/// The whole program: the prologue, one check per denied syscall, and the
/// final instruction that allows everything else.
pub open spec fn filter_spec(denied: Seq<u32>) -> Seq<FilterInstruction> {
    filter_prologue() + deny_checks(denied) + seq![(0x06u16, 0u8, 0u8, 0x7fff0000u32)]
}

/// The syscalls that the sandbox denies: the always-denied ones, in order,
/// then `socket` when the network is denied too.
pub open spec fn denied_spec(always: Seq<u32>, socket: u32, deny_network: bool) -> Seq<u32> {
    if deny_network {
        always.push(socket)
    } else {
        always
    }
}

/// The syscalls that the sandbox denies (see [`denied_spec`]).
pub fn denied_syscalls(always: &[u32], socket: u32, deny_network: bool) -> (r: Vec<u32>)
    ensures
        r@ == denied_spec(always@, socket, deny_network),
{
    let mut r: Vec<u32> = Vec::new();
    let mut i: usize = 0;
    while i < always.len()
        invariant
            0 <= i <= always@.len(),
            r@ == always@.take(i as int),
        decreases always@.len() - i,
    {
        r.push(always[i]);
        proof {
            assert(always@.take(i as int).push(always@[i as int]) =~= always@.take(i + 1));
        }
        i = i + 1;
    }
    proof {
        assert(always@.take(always@.len() as int) =~= always@);
    }
    if deny_network {
        r.push(socket);
    }
    r
}

/// The seccomp program that denies the given syscalls (see [`filter_spec`]).
pub fn filter_instructions(denied: &[u32]) -> (r: Vec<FilterInstruction>)
    ensures
        r@ == filter_spec(denied@),
{
    let mut r: Vec<FilterInstruction> = Vec::new();
    r.push((0x20u16, 0u8, 0u8, 4u32));
    r.push((0x15u16, 1u8, 0u8, 0xc000003eu32));
    r.push((0x06u16, 0u8, 0u8, 0x80000000u32));
    r.push((0x20u16, 0u8, 0u8, 0u32));
    r.push((0x45u16, 0u8, 1u8, 0x40000000u32));
    r.push((0x06u16, 0u8, 0u8, 0x80000000u32));
    proof {
        assert(r@ =~= filter_prologue() + deny_checks(denied@.take(0)));
    }
    let mut i: usize = 0;
    while i < denied.len()
        invariant
            0 <= i <= denied@.len(),
            r@ == filter_prologue() + deny_checks(denied@.take(i as int)),
        decreases denied@.len() - i,
    {
        let ghost before = r@;
        r.push((0x15u16, 0u8, 1u8, denied[i]));
        r.push((0x06u16, 0u8, 0u8, 0x00050001u32));
        proof {
            let t = denied@.take(i + 1);
            assert(t.drop_last() =~= denied@.take(i as int));
            assert(t.last() == denied@[i as int]);
            assert(r@ =~= before + deny_check(denied@[i as int]));
            assert(r@ =~= filter_prologue() + deny_checks(t));
        }
        i = i + 1;
    }
    r.push((0x06u16, 0u8, 0u8, 0x7fff0000u32));
    proof {
        assert(denied@.take(denied@.len() as int) =~= denied@);
        assert(r@ =~= filter_spec(denied@));
    }
    r
}

/// The eight bytes of one instruction as the kernel reads it on x86-64:
/// the code as two little-endian bytes, the two jump offsets, and the
/// operand as four little-endian bytes.
pub open spec fn instruction_bytes(ins: FilterInstruction) -> Seq<u8> {
    seq![
        (ins.0 % 256) as u8,
        (ins.0 / 256) as u8,
        ins.1,
        ins.2,
        (ins.3 % 256) as u8,
        (ins.3 / 256 % 256) as u8,
        (ins.3 / 65536 % 256) as u8,
        (ins.3 / 16777216) as u8,
    ]
}

/// The bytes of a program: its instructions' bytes, in order.
pub open spec fn program_bytes(program: Seq<FilterInstruction>) -> Seq<u8>
    decreases program.len(),
{
    if program.len() == 0 {
        Seq::empty()
    } else {
        program_bytes(program.drop_last()) + instruction_bytes(program.last())
    }
}

/// The program as the bytes that the sandbox hands to the kernel (see
/// [`program_bytes`]).
pub fn filter_bytes(program: &[FilterInstruction]) -> (r: Vec<u8>)
    ensures
        r@ == program_bytes(program@),
{
    let mut r: Vec<u8> = Vec::new();
    let mut i: usize = 0;
    proof {
        assert(program@.take(0) =~= Seq::<FilterInstruction>::empty());
    }
    while i < program.len()
        invariant
            0 <= i <= program@.len(),
            r@ == program_bytes(program@.take(i as int)),
        decreases program@.len() - i,
    {
        let (code, jt, jf, value) = program[i];
        let ghost before = r@;
        r.push((code % 256) as u8);
        r.push((code / 256) as u8);
        r.push(jt);
        r.push(jf);
        r.push((value % 256) as u8);
        r.push((value / 256 % 256) as u8);
        r.push((value / 65536 % 256) as u8);
        r.push((value / 16777216) as u8);
        proof {
            let t = program@.take(i + 1);
            assert(t.drop_last() =~= program@.take(i as int));
            assert(t.last() == program@[i as int]);
            assert(r@ =~= before + instruction_bytes(program@[i as int]));
        }
        i = i + 1;
    }
    proof {
        assert(program@.take(program@.len() as int) =~= program@);
    }
    r
}

} // verus!
