//! Plain data shared with the driver: tracking modes, register names and
//! the byte layout of the records that travel through the mailbox.
//!
//! All multi-byte integers in the mailbox are little-endian. The offsets
//! below are the whole interface; nothing else is read from a record.

use vstd::prelude::*;
use vstd::bytes::{spec_u32_from_le_bytes, spec_u64_from_le_bytes, u32_from_le_bytes, u64_from_le_bytes};
use vstd::slice::slice_subrange;

verus! {

/// Size of the memory region shared with the driver.
pub const SEV_STEP_SHARED_MEM_BYTES: usize = 81920;

/// Offset of the lock word inside the shared region.
pub const SPINLOCK_OFFSET: usize = 0;

/// Offset of the "event acknowledged" flag inside the shared region.
pub const EVENT_ACKED_OFFSET: usize = 4;

/// Offset of the "have event" flag inside the shared region.
pub const HAVE_EVENT_OFFSET: usize = 8;

/// Offset of the event type tag inside the shared region.
pub const EVENT_TYPE_OFFSET: usize = 12;

/// Offset of the event buffer inside the shared region.
pub const EVENT_BUFFER_OFFSET: usize = 16;

/// Size of the event buffer: everything behind the four header words.
pub const EVENT_BUFFER_BYTES: usize = 81904;

/// Event type tag of a page fault record.
pub const PAGE_FAULT_EVENT: u32 = 0;

/// Event type tag of a step record.
pub const SEV_STEP_EVENT: u32 = 1;

/// Number of registers in a register block.
pub const REGISTER_COUNT: usize = 14;

/// Size of a register block: the register values, then one byte that is
/// non-zero if the driver failed to fetch them, padded to eight bytes.
pub const REGISTER_BLOCK_BYTES: usize = 120;

/// Offset of the faulted address in a page fault record.
pub const PF_FAULTED_GPA_OFFSET: usize = 0;

/// Offset of the register block in a page fault record.
pub const PF_REGISTERS_OFFSET: usize = 8;

/// Offset of the "register block is valid" byte in a page fault record.
pub const PF_REGISTERS_VALID_OFFSET: usize = 128;

/// Size of a page fault record.
pub const PF_RECORD_BYTES: usize = 136;

/// Offset of the retired instruction count in a step record.
pub const STEP_COUNTED_INSTRUCTIONS_OFFSET: usize = 0;

/// Offset of the register block in a step record.
pub const STEP_REGISTERS_OFFSET: usize = 8;

/// Offset of the "register block is valid" byte in a step record.
pub const STEP_REGISTERS_VALID_OFFSET: usize = 128;

/// Offset of the word that is non-zero if timing probes were taken.
pub const STEP_CACHE_TIMINGS_OFFSET: usize = 136;

/// Offset of the word that is non-zero if performance counter probes were
/// taken.
pub const STEP_CACHE_PERF_OFFSET: usize = 144;

/// Offset of the number of probes in each of the two probe arrays.
pub const STEP_CACHE_LEN_OFFSET: usize = 152;

/// Size of the fixed part of a step record. The timing probes follow
/// directly, then the performance counter probes.
pub const STEP_HEADER_BYTES: usize = 160;

/// Kind of guest memory access that page tracking reacts to.
#[derive(Clone, Copy, Debug, PartialEq, Eq, Structural)]
pub enum PageTrackMode {
    Write,
    Access,
    Exec,
}

impl PageTrackMode {
    /// The number that stands for this mode in a control call.
    pub open spec fn spec_wire_value(self) -> i32 {
        match self {
            PageTrackMode::Write => 0,
            PageTrackMode::Access => 1,
            PageTrackMode::Exec => 3,
        }
    }

    /// The name of this mode.
    pub open spec fn spec_name(self) -> Seq<char> {
        match self {
            PageTrackMode::Write => "Write"@,
            PageTrackMode::Access => "Access"@,
            PageTrackMode::Exec => "Exec"@,
        }
    }

    /// The name of this mode.
    pub fn name(self) -> (r: &'static str)
        ensures
            r@ == self.spec_name(),
    {
        match self {
            PageTrackMode::Write => "Write",
            PageTrackMode::Access => "Access",
            PageTrackMode::Exec => "Exec",
        }
    }

    /// The number that stands for this mode in a control call.
    #[verifier::when_used_as_spec(spec_wire_value)]
    pub fn wire_value(self) -> (r: i32)
        ensures
            r == self.spec_wire_value(),
    {
        match self {
            PageTrackMode::Write => 0,
            PageTrackMode::Access => 1,
            PageTrackMode::Exec => 3,
        }
    }
}

/// Names of the registers in a register block, in block order.
#[derive(Clone, Copy, Debug, PartialEq, Eq, Structural)]
pub enum VmsaRegister {
    Rflags,
    Rip,
    Rsp,
    R10,
    R11,
    R12,
    R13,
    R8,
    R9,
    Rbx,
    Rcx,
    Rdx,
    Rsi,
    Cr3,
}

impl VmsaRegister {
    /// Position of the register inside a register block.
    pub open spec fn spec_index(self) -> usize {
        match self {
            VmsaRegister::Rflags => 0,
            VmsaRegister::Rip => 1,
            VmsaRegister::Rsp => 2,
            VmsaRegister::R10 => 3,
            VmsaRegister::R11 => 4,
            VmsaRegister::R12 => 5,
            VmsaRegister::R13 => 6,
            VmsaRegister::R8 => 7,
            VmsaRegister::R9 => 8,
            VmsaRegister::Rbx => 9,
            VmsaRegister::Rcx => 10,
            VmsaRegister::Rdx => 11,
            VmsaRegister::Rsi => 12,
            VmsaRegister::Cr3 => 13,
        }
    }

    /// Position of the register inside a register block.
    #[verifier::when_used_as_spec(spec_index)]
    pub fn index(self) -> (r: usize)
        ensures
            r == self.spec_index(),
            r < REGISTER_COUNT,
    {
        match self {
            VmsaRegister::Rflags => 0,
            VmsaRegister::Rip => 1,
            VmsaRegister::Rsp => 2,
            VmsaRegister::R10 => 3,
            VmsaRegister::R11 => 4,
            VmsaRegister::R12 => 5,
            VmsaRegister::R13 => 6,
            VmsaRegister::R8 => 7,
            VmsaRegister::R9 => 8,
            VmsaRegister::Rbx => 9,
            VmsaRegister::Rcx => 10,
            VmsaRegister::Rdx => 11,
            VmsaRegister::Rsi => 12,
            VmsaRegister::Cr3 => 13,
        }
    }
}

/// The 32-bit word that starts at `offset`, if `bytes` is long enough.
pub open spec fn spec_u32_at(bytes: Seq<u8>, offset: int) -> Option<u32> {
    if 0 <= offset && offset + 4 <= bytes.len() {
        Some(spec_u32_from_le_bytes(bytes.subrange(offset, offset + 4)))
    } else {
        None
    }
}

/// The 64-bit word that starts at `offset`, if `bytes` is long enough.
pub open spec fn spec_u64_at(bytes: Seq<u8>, offset: int) -> Option<u64> {
    if 0 <= offset && offset + 8 <= bytes.len() {
        Some(spec_u64_from_le_bytes(bytes.subrange(offset, offset + 8)))
    } else {
        None
    }
}

/// The flag byte at `offset`: any non-zero byte means `true`.
pub open spec fn spec_flag_at(bytes: Seq<u8>, offset: int) -> Option<bool> {
    if 0 <= offset < bytes.len() {
        Some(bytes[offset] != 0)
    } else {
        None
    }
}

/// `count` consecutive 64-bit words starting at `offset`.
pub open spec fn spec_words_at(bytes: Seq<u8>, offset: int, count: int) -> Option<Seq<u64>> {
    if 0 <= offset && 0 <= count && offset + 8 * count <= bytes.len() {
        Some(Seq::new(count as nat, |i: int| spec_u64_at(bytes, offset + 8 * i).unwrap()))
    } else {
        None
    }
}

/// Reads the 32-bit word that starts at `offset`.
pub fn read_u32(bytes: &[u8], offset: usize) -> (r: Option<u32>)
    ensures
        r == spec_u32_at(bytes@, offset as int),
{
    if bytes.len() < 4 || offset > bytes.len() - 4 {
        return None;
    }
    Some(u32_from_le_bytes(slice_subrange(bytes, offset, offset + 4)))
}

/// Reads the 64-bit word that starts at `offset`.
pub fn read_u64(bytes: &[u8], offset: usize) -> (r: Option<u64>)
    ensures
        r == spec_u64_at(bytes@, offset as int),
{
    if bytes.len() < 8 || offset > bytes.len() - 8 {
        return None;
    }
    Some(u64_from_le_bytes(slice_subrange(bytes, offset, offset + 8)))
}

/// Reads the flag byte at `offset`.
pub fn read_flag(bytes: &[u8], offset: usize) -> (r: Option<bool>)
    ensures
        r == spec_flag_at(bytes@, offset as int),
{
    if offset >= bytes.len() {
        return None;
    }
    Some(bytes[offset] != 0)
}

/// Reads `count` consecutive 64-bit words starting at `offset`.
pub fn read_words(bytes: &[u8], offset: usize, count: usize) -> (r: Option<Vec<u64>>)
    ensures
        r is Some == spec_words_at(bytes@, offset as int, count as int) is Some,
        r matches Some(words) ==> words@ == spec_words_at(bytes@, offset as int, count as int).unwrap(),
{
    if offset > bytes.len() || count > (bytes.len() - offset) / 8 {
        return None;
    }
    let mut words: Vec<u64> = Vec::new();
    let mut i: usize = 0;
    while i < count
        invariant
            i <= count,
            offset + 8 * count <= bytes@.len(),
            bytes@.len() <= usize::MAX,
            words@.len() == i,
            forall|j: int| 0 <= j < i ==> words@[j] == spec_u64_at(bytes@, offset + 8 * j).unwrap(),
        decreases count - i,
    {
        assert(offset + 8 * i + 8 <= offset + 8 * count) by (nonlinear_arith)
            requires
                i < count,
        ;
        let word = read_u64(bytes, offset + 8 * i);
        words.push(word.unwrap());
        i = i + 1;
    }
    assert(words@ =~= spec_words_at(bytes@, offset as int, count as int).unwrap());
    Some(words)
}

/// The guest's registers as the driver captured them for one event.
#[derive(Clone, Copy, Debug)]
pub struct RegisterSnapshot {
    pub register_values: [u64; REGISTER_COUNT],
}

impl View for RegisterSnapshot {
    type V = Seq<u64>;

    open spec fn view(&self) -> Seq<u64> {
        self.register_values@
    }
}

impl RegisterSnapshot {
    /// The value of one register.
    pub fn get(&self, name: VmsaRegister) -> (r: u64)
        ensures
            r == self@[name.spec_index() as int],
    {
        self.register_values[name.index()]
    }
}

/// The register values that an event record carries, if it carries any:
/// the block at `block` counts only if the flag at `valid` is set and the
/// block's own failure flag is clear.
pub open spec fn spec_snapshot_at(bytes: Seq<u8>, block: int, valid: int) -> Option<Seq<u64>> {
    if spec_flag_at(bytes, valid) == Some(true) && spec_flag_at(bytes, block + 8 * REGISTER_COUNT)
        == Some(false) {
        spec_words_at(bytes, block, REGISTER_COUNT as int)
    } else {
        None
    }
}

/// Reads the register block at `block` of an event record whose
/// "registers are valid" flag is at `valid`.
pub fn read_snapshot(bytes: &[u8], block: usize, valid: usize) -> (r: Option<RegisterSnapshot>)
    requires
        block + REGISTER_BLOCK_BYTES <= usize::MAX,
    ensures
        r is Some == spec_snapshot_at(bytes@, block as int, valid as int) is Some,
        r matches Some(snapshot) ==> snapshot@ == spec_snapshot_at(
            bytes@,
            block as int,
            valid as int,
        ).unwrap(),
{
    let is_valid = read_flag(bytes, valid);
    let failed = read_flag(bytes, block + 8 * REGISTER_COUNT);
    if is_valid != Some(true) || failed != Some(false) {
        return None;
    }
    match read_words(bytes, block, REGISTER_COUNT) {
        None => None,
        Some(words) => {
            let mut register_values: [u64; REGISTER_COUNT] = [0u64; REGISTER_COUNT];
            let mut i: usize = 0;
            while i < REGISTER_COUNT
                invariant
                    i <= REGISTER_COUNT,
                    words@.len() == REGISTER_COUNT,
                    forall|j: int| 0 <= j < i ==> register_values@[j] == words@[j],
                decreases REGISTER_COUNT - i,
            {
                register_values[i] = words[i];
                i = i + 1;
            }
            assert(register_values@ =~= words@);
            Some(RegisterSnapshot { register_values })
        },
    }
}

} // verus!
