//! Properties of the machine that span several operations.
use vstd::prelude::*;

use crate::bus::{bus_read, bus_write, wram_slot, BusModel};
use crate::error::EmuError;
use crate::flags::{has_bits, CpuFlags};
use crate::opcode::AddressingMode;
use crate::opcode::{opcode_table, Mnemonic};
use crate::semantics::{pulled_flags, pushed_flags, CpuModel};

verus! {

/// Reads never change work RAM.
pub proof fn lemma_read_keeps_wram(b: BusModel, addr: u16)
    ensures
        bus_read(b, addr).0.wram == b.wram,
        b.wf() ==> bus_read(b, addr).0.wf(),
{
}

/// A byte written to a work-RAM address reads back there and at every
/// address that names the same physical slot.
pub proof fn lemma_ram_mirroring(b: BusModel, addr: u16, mirror: u16, v: u8)
    requires
        b.wf(),
        addr <= 0x1FFF,
        mirror <= 0x1FFF,
        addr % 2048 == mirror % 2048,
    ensures
        bus_read(bus_write(b, addr, v), addr).1 == v,
        bus_read(bus_read(bus_write(b, addr, v), addr).0, mirror).1 == v,
{
}

/// The same, for the mirror reached by flipping address bits above the
/// 2 KiB window: `read(addr) == read(addr ^ mask) == v`.
pub proof fn lemma_ram_mirror_mask(b: BusModel, addr: u16, mask: u16, v: u8)
    requires
        b.wf(),
        addr <= 0x1FFF,
        mask & 0x07FF == 0,
        addr ^ mask <= 0x1FFF,
    ensures
        bus_read(bus_write(b, addr, v), addr).1 == v,
        bus_read(bus_read(bus_write(b, addr, v), addr).0, addr ^ mask).1 == v,
{
    assert((addr ^ mask) % 2048 == addr % 2048) by (bit_vector)
        requires
            mask & 0x07FF == 0,
    ;
    lemma_ram_mirroring(b, addr, addr ^ mask, v);
}

/// Zero-page indexing wraps within the zero page: the effective address
/// is the base byte plus X, modulo 256.
pub proof fn lemma_zero_page_x_wraps(s: CpuModel)
    ensures
        s.operand(AddressingMode::ZeroPage_X).1 == (s.read(s.pc).1 as int + s.x as int) % 256,
        s.operand(AddressingMode::ZeroPage_X).1 < 256,
{
    reveal(CpuModel::operand);
}

/// The state after pushing the bytes of `vs`, first to last.
pub open spec fn push_all(s: CpuModel, vs: Seq<u8>) -> CpuModel
    decreases vs.len(),
{
    if vs.len() == 0 {
        s
    } else {
        push_all(s, vs.drop_last()).push(vs.last())
    }
}

/// The state after `n` pops, and the bytes they gave, in order.
pub open spec fn pop_n(s: CpuModel, n: nat) -> (CpuModel, Seq<u8>)
    decreases n,
{
    if n == 0 {
        (s, Seq::empty())
    } else {
        let (s1, v) = s.pop();
        let (s2, rest) = pop_n(s1, (n - 1) as nat);
        (s2, seq![v] + rest)
    }
}

/// Stack-page slot of stack offset `k` (any integer, taken modulo 256).
pub open spec fn stack_slot(k: int) -> int {
    0x100 + k % 256
}

proof fn lemma_slots_distinct(a: int, i: int, j: int)
    requires
        0 <= i < j < 256,
    ensures
        stack_slot(a - i) != stack_slot(a - j),
{
    let k1 = (a - i) / 256;
    let k2 = (a - j) / 256;
    assert(a - i == 256 * k1 + (a - i) % 256);
    assert(a - j == 256 * k2 + (a - j) % 256);
    if (a - i) % 256 == (a - j) % 256 {
        assert(j - i == 256 * (k1 - k2));
    }
}

proof fn lemma_offset_down(a: int, m: int, x: u8)
    requires
        x as int == (a - m) % 256,
    ensures
        x.wrapping_sub(1) as int == (a - (m + 1)) % 256,
{
    let k = (a - m) / 256;
    assert(a - m == 256 * k + x);
    if x == 0 {
        assert(a - (m + 1) == 256 * (k - 1) + 255);
        vstd::arithmetic::div_mod::lemma_mod_multiples_vanish(k - 1, 255, 256);
    } else {
        assert(a - (m + 1) == 256 * k + (x - 1));
        vstd::arithmetic::div_mod::lemma_mod_multiples_vanish(k, x - 1, 256);
    }
}

proof fn lemma_push_all(s: CpuModel, vs: Seq<u8>)
    requires
        s.wf(),
        vs.len() <= 256,
    ensures
        push_all(s, vs).wf(),
        push_all(s, vs).sp as int == (s.sp as int - vs.len()) % 256,
        forall|i: int|
            0 <= i < vs.len() ==> push_all(s, vs).bus.wram[#[trigger] stack_slot(s.sp - i)]
                == vs[i],
    decreases vs.len(),
{
    if vs.len() > 0 {
        let n = vs.len() as int;
        let prev = vs.drop_last();
        lemma_push_all(s, prev);
        let t = push_all(s, prev);
        let u = push_all(s, vs);
        assert(u == t.push(vs.last()));
        reveal(CpuModel::push);
        let slot = 0x100 + t.sp as int;
        assert(u.bus.wram == t.bus.wram.update(slot, vs.last()));
        assert(stack_slot(s.sp - (n - 1)) == slot);
        lemma_offset_down(s.sp as int, n - 1, t.sp);
        assert forall|i: int| 0 <= i < n implies u.bus.wram[#[trigger] stack_slot(s.sp - i)]
            == vs[i] by {
            if i < n - 1 {
                assert(prev[i] == vs[i]);
                lemma_slots_distinct(s.sp as int, i, n - 1);
                assert(t.bus.wram[stack_slot(s.sp - i)] == prev[i]);
            }
        }
    }
}

proof fn lemma_pop_n(t: CpuModel, n: nat)
    requires
        t.wf(),
    ensures
        pop_n(t, n).0.wf(),
        pop_n(t, n).0.sp as int == (t.sp as int + n) % 256,
        pop_n(t, n).1.len() == n,
        forall|i: int|
            0 <= i < n ==> #[trigger] pop_n(t, n).1[i] == t.bus.wram[stack_slot(t.sp + 1 + i)],
    decreases n,
{
    reveal(CpuModel::pop);
    if n > 0 {
        let (t1, v) = t.pop();
        lemma_read_keeps_wram(t.bus, crate::stackptr::stack_address(t1.sp));
        lemma_pop_n(t1, (n - 1) as nat);
        assert(v == t.bus.wram[stack_slot(t.sp + 1)]);
        assert forall|i: int| 0 <= i < n implies #[trigger] pop_n(t, n).1[i] == t.bus.wram[stack_slot(
            t.sp + 1 + i,
        )] by {
            if i > 0 {
                assert(pop_n(t, n).1[i] == pop_n(t1, (n - 1) as nat).1[i - 1]);
                assert(stack_slot(t1.sp + 1 + (i - 1)) == stack_slot(t.sp + 1 + i));
            }
        }
    }
}

proof fn lemma_slot_shift(a: int, n: int, i: int)
    ensures
        stack_slot((a - n) % 256 + 1 + i) == stack_slot(a - (n - 1 - i)),
{
    let q = (a - n) % 256;
    let k = (a - n) / 256;
    assert(a - n == 256 * k + q);
    assert((q + 1 + i) % 256 == (a - (n - 1 - i)) % 256) by {
        assert(q + 1 + i == (a - (n - 1 - i)) + 256 * (-k));
        vstd::arithmetic::div_mod::lemma_mod_multiples_vanish(-k, a - (n - 1 - i), 256);
    }
}

/// The stack is last-in first-out, wrapping within its page: pushing up to
/// 256 bytes and popping as many gives them back in reverse order, with the
/// stack offset where it started.
pub proof fn lemma_stack_lifo(s: CpuModel, vs: Seq<u8>)
    requires
        s.wf(),
        vs.len() <= 256,
    ensures
        pop_n(push_all(s, vs), vs.len()).1 == vs.reverse(),
        pop_n(push_all(s, vs), vs.len()).0.sp == s.sp,
{
    let n = vs.len() as int;
    let t = push_all(s, vs);
    lemma_push_all(s, vs);
    lemma_pop_n(t, vs.len());
    let out = pop_n(t, vs.len()).1;
    assert forall|i: int| 0 <= i < n implies out[i] == vs.reverse()[i] by {
        lemma_slot_shift(s.sp as int, n, i);
    }
    assert(out =~= vs.reverse());
}

/// A pulled status byte has break clear, break2 set and the other six bits
/// of the byte on the stack.
pub proof fn lemma_pulled_flags_bits(v: u8)
    ensures
        !has_bits(pulled_flags(v), CpuFlags::BREAK),
        has_bits(pulled_flags(v), CpuFlags::BREAK2),
        pulled_flags(v) & 0b1100_1111 == v & 0b1100_1111,
{
    let p = pulled_flags(v);
    assert(p & 0b0001_0000 != 0b0001_0000 && p & 0b0010_0000 == 0b0010_0000 && p & 0b1100_1111
        == v & 0b1100_1111) by (bit_vector)
        requires
            p == ((v & !0b0001_0000u8) | 0b0010_0000u8),
    ;
}

/// Pulling the status leaves break clear and break2 set, whatever byte was
/// on the stack; the other six flags come from that byte.
pub proof fn lemma_pull_normalizes(s: CpuModel, v: u8)
    requires
        s.wf(),
    ensures
        s.push(v).plp().p == pulled_flags(v),
        !has_bits(s.push(v).plp().p, CpuFlags::BREAK),
        has_bits(s.push(v).plp().p, CpuFlags::BREAK2),
        s.push(v).plp().p & 0b1100_1111 == v & 0b1100_1111,
{
    reveal(CpuModel::push);
    reveal(CpuModel::pop);
    reveal(CpuModel::plp);
    lemma_pulled_flags_bits(v);
}

/// Pushing the status and pulling it back keeps the six real flags and
/// leaves break clear and break2 set.
pub proof fn lemma_flag_push_pull(s: CpuModel)
    requires
        s.wf(),
    ensures
        s.php().plp().p == pulled_flags(pushed_flags(s.p)),
        !has_bits(s.php().plp().p, CpuFlags::BREAK),
        has_bits(s.php().plp().p, CpuFlags::BREAK2),
        s.php().plp().p & 0b1100_1111 == s.p & 0b1100_1111,
{
    reveal(CpuModel::php);
    lemma_pull_normalizes(s, pushed_flags(s.p));
    let q = pushed_flags(s.p);
    let p = s.p;
    assert(q & 0b1100_1111 == p & 0b1100_1111) by (bit_vector)
        requires
            q == ((p | 0b0001_0000u8) | 0b0010_0000u8),
    ;
}

/// The indirect jump's page quirk: when the pointer ends a page of work
/// RAM, the target's low byte comes from the pointer and its high byte from
/// the first byte of the same page, not of the next one.
pub proof fn lemma_indirect_jump_page_wrap(s: CpuModel)
    requires
        s.wf(),
        s.read_u16(s.pc).1 <= 0x1FFF,
        s.read_u16(s.pc).1 & 0x00FF == 0x00FF,
    ensures
        s.jmp(AddressingMode::NoneAddressing).pc == s.bus.wram[wram_slot(
            (s.read_u16(s.pc).1 - 0xFF) as u16,
        )] as int * 256 + s.bus.wram[wram_slot(s.read_u16(s.pc).1)] as int,
{
    reveal(CpuModel::jmp);
    reveal(CpuModel::read);
    reveal(CpuModel::read_u16);
    let ptr = s.read_u16(s.pc).1;
    assert(ptr & 0xFF00 == ptr - 0xFF) by (bit_vector)
        requires
            ptr & 0x00FF == 0x00FF,
    ;
    let b0 = s.bus;
    let b1 = bus_read(b0, s.pc).0;
    lemma_read_keeps_wram(b0, s.pc);
    lemma_read_keeps_wram(b1, s.pc.wrapping_add(1));
    let b2 = bus_read(b1, s.pc.wrapping_add(1)).0;
    lemma_read_keeps_wram(b2, ptr);
}

/// After a read of the status slot, two writes to the address slot set the
/// high byte and then the low byte of the picture unit's address.
pub proof fn lemma_status_read_resets_latch(b: BusModel, hi: u8, lo: u8)
    requires
        b.wf(),
    ensures
        bus_write(bus_read(b, 0x2002).0, 0x2006, hi).ppu.addr as int == hi as int * 256 + b.ppu.addr
            % 256,
        bus_write(bus_write(bus_read(b, 0x2002).0, 0x2006, hi), 0x2006, lo).ppu.addr as int
            == hi as int * 256 + lo as int,
{
}

/// One interpreter step on the flag-pull opcode (0x28) leaves break clear
/// and break2 set, whatever byte it pulled, and takes the other six flags
/// from that byte.
pub proof fn lemma_step_pull_normalizes(s: CpuModel)
    requires
        s.wf(),
        s.read(s.pc).1 == 0x28,
    ensures
        s.step().1 == Ok::<bool, EmuError>(false),
        !has_bits(s.step().0.p, CpuFlags::BREAK),
        has_bits(s.step().0.p, CpuFlags::BREAK2),
        ({
            let s1 = s.read(s.pc).0;
            let s2 = CpuModel { pc: s1.pc.wrapping_add(1), ..s1 };
            s.step().0.p & 0b1100_1111 == s2.pop().1 & 0b1100_1111
        }),
{
    let s1 = s.read(s.pc).0;
    let s2 = CpuModel { pc: s1.pc.wrapping_add(1), ..s1 };
    assert(opcode_table(0x28) matches Some(op) && op.mnemonic == Mnemonic::Plp && op.bytes == 1);
    reveal(CpuModel::plp);
    lemma_pulled_flags_bits(s2.pop().1);
}

/// The indirect jump's page quirk, on any bus: when the pointer's low byte
/// ends a page, the target's low byte is read at the pointer and its high
/// byte at the first address of the same page (never of the next page).
pub proof fn lemma_indirect_jump_page_bug(s: CpuModel)
    requires
        s.read_u16(s.pc).1 & 0x00FF == 0x00FF,
    ensures
        ({
            let (s1, ptr) = s.read_u16(s.pc);
            let (s2, lo) = s1.read(ptr);
            let hi = s2.read((ptr - 0xFF) as u16).1;
            s.jmp(AddressingMode::NoneAddressing).pc == hi as int * 256 + lo as int
        }),
{
    reveal(CpuModel::jmp);
    let ptr = s.read_u16(s.pc).1;
    assert(ptr & 0xFF00 == ptr - 0xFF) by (bit_vector)
        requires
            ptr & 0x00FF == 0x00FF,
    ;
}

/// The stack offset after `n` push steps from offset `o`.
pub open spec fn offset_after_pushes(o: u8, n: nat) -> u8
    decreases n,
{
    if n == 0 {
        o
    } else {
        offset_after_pushes(o, (n - 1) as nat).wrapping_sub(1)
    }
}

/// The stack offset after `n` pop steps from offset `o`.
pub open spec fn offset_after_pops(o: u8, n: nat) -> u8
    decreases n,
{
    if n == 0 {
        o
    } else {
        offset_after_pops(o, (n - 1) as nat).wrapping_add(1)
    }
}

proof fn lemma_offset_up(a: int, m: int, x: u8)
    requires
        x as int == (a + m) % 256,
    ensures
        x.wrapping_add(1) as int == (a + (m + 1)) % 256,
{
    let k = (a + m) / 256;
    assert(a + m == 256 * k + x);
    if x == 255 {
        assert(a + (m + 1) == 256 * (k + 1) + 0);
        vstd::arithmetic::div_mod::lemma_mod_multiples_vanish(k + 1, 0, 256);
    } else {
        assert(a + (m + 1) == 256 * k + (x + 1));
        vstd::arithmetic::div_mod::lemma_mod_multiples_vanish(k, x + 1, 256);
    }
}

proof fn lemma_offset_closed_forms(o: u8, n: nat)
    ensures
        offset_after_pushes(o, n) as int == (o - n) % 256,
        offset_after_pops(o, n) as int == (o + n) % 256,
    decreases n,
{
    if n == 0 {
        vstd::arithmetic::div_mod::lemma_mod_multiples_vanish(0, o as int, 256);
    } else {
        lemma_offset_closed_forms(o, (n - 1) as nat);
        lemma_offset_down(o as int, n - 1, offset_after_pushes(o, (n - 1) as nat));
        lemma_offset_up(o as int, n - 1, offset_after_pops(o, (n - 1) as nat));
    }
}

/// The stack offset wraps within its page: `n` push steps followed by `n`
/// pop steps bring it back where it started, for every `n` (256 included).
pub proof fn lemma_stack_offset_round_trip(o: u8, n: nat)
    ensures
        offset_after_pops(offset_after_pushes(o, n), n) == o,
{
    let x = offset_after_pushes(o, n);
    lemma_offset_closed_forms(o, n);
    lemma_offset_closed_forms(x, n);
    let k = (o - n) / 256;
    assert(o - n == 256 * k + x);
    assert(x + n == o + 256 * (-k)) by (nonlinear_arith)
        requires
            o - n == 256 * k + x,
    ;
    vstd::arithmetic::div_mod::lemma_mod_multiples_vanish(-k, o as int, 256);
    vstd::arithmetic::div_mod::lemma_mod_multiples_vanish(0, o as int, 256);
}

} // verus!
