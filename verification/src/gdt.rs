//! Flat segment descriptor table and the values that drive the one-shot
//! privilege transition.
//!
//! A descriptor is a 64-bit packed value: limit low 16 bits in bits 0-15,
//! base low 16 bits in bits 16-31, base mid 8 bits in bits 32-39, access byte
//! in bits 40-47, limit high 4 bits in bits 48-51, flags nibble in bits
//! 52-55, base high 8 bits in bits 56-63. The table holds 7 entries: the
//! mandatory null descriptor, then kernel code/data/stack at ring 0 and user
//! code/data/stack at ring 3, all flat 4 GiB segments. The routine that
//! copies the table to its physical address, loads it and far-jumps through
//! the new code segment is inline assembly and lives outside this crate; it
//! takes the table, the table pointer and the far pointer built here.

use vstd::prelude::*;

verus! {

/// 20-bit limit for a flat 4 GiB segment (4 KiB granularity fills in the low
/// bits).
pub const LIMIT_4GB: u32 = 0x000F_FFFF;

/// Flags nibble: 4 KiB granularity plus 32-bit default operation size.
pub const GRANULARITY_FLAGS: u8 = 0b1100;

/// Physical address the table is copied to before being loaded.
pub const GDT_PHYS_ADDR: u32 = 0x0000_0800;

pub const KERNEL_CODE_SELECTOR: u16 = 1 << 3;
pub const KERNEL_DATA_SELECTOR: u16 = 2 << 3;
pub const KERNEL_STACK_SELECTOR: u16 = 3 << 3;
pub const USER_CODE_SELECTOR: u16 = (4 << 3) | 0b11;
pub const USER_DATA_SELECTOR: u16 = (5 << 3) | 0b11;
pub const USER_STACK_SELECTOR: u16 = (6 << 3) | 0b11;

/// The packed 64-bit value of one descriptor built from a 32-bit base, a
/// 20-bit limit, an access byte and a flags nibble. Only the low 20 bits of
/// the limit and the low 4 bits of the flags fit the layout; the rest is
/// dropped.
pub open spec fn encode_descriptor(base: u32, limit: u32, access: u8, flags: u8) -> u64 {
    ((limit & 0xFFFF) as u64) | (((base & 0xFFFF) as u64) << 16) | ((((base >> 16) & 0xFF) as u64)
        << 32) | ((access as u64) << 40) | ((((limit >> 16) & 0xF) as u64) << 48) | (((flags
        & 0xF) as u64) << 52) | ((((base >> 24) & 0xFF) as u64) << 56)
}

/// The base address read back from a packed descriptor.
pub open spec fn descriptor_base(v: u64) -> u32 {
    ((((v >> 16) & 0xFFFF)) | (((v >> 32) & 0xFF) << 16) | (((v >> 56) & 0xFF) << 24)) as u32
}

/// The 20-bit limit read back from a packed descriptor.
pub open spec fn descriptor_limit(v: u64) -> u32 {
    ((v & 0xFFFF) | (((v >> 48) & 0xF) << 16)) as u32
}

/// The access byte read back from a packed descriptor.
pub open spec fn descriptor_access(v: u64) -> u8 {
    ((v >> 40) & 0xFF) as u8
}

/// The flags nibble read back from a packed descriptor.
pub open spec fn descriptor_flags(v: u64) -> u8 {
    ((v >> 52) & 0xF) as u8
}

/// The two ring bits placed in an access byte, bits 5-6.
pub open spec fn spec_privilege_mask(ring: u8) -> u8 {
    (ring & 0b11) << 5
}

/// One segment descriptor, immutable once constructed.
#[derive(Clone, Copy, PartialEq, Eq, Structural)]
pub struct GdtEntry(u64);

impl GdtEntry {
    /// The packed 64-bit value.
    pub closed spec fn spec_value(&self) -> u64 {
        self.0
    }

    pub fn new(base: u32, limit: u32, access: u8, flags: u8) -> (entry: GdtEntry)
        ensures
            entry.spec_value() == encode_descriptor(base, limit, access, flags),
    {
        let value: u64 = ((limit & 0xFFFF) as u64) | (((base & 0xFFFF) as u64) << 16) | ((((base
            >> 16) & 0xFF) as u64) << 32) | ((access as u64) << 40) | ((((limit >> 16)
            & 0xF) as u64) << 48) | (((flags & 0xF) as u64) << 52) | ((((base >> 24)
            & 0xFF) as u64) << 56);
        GdtEntry(value)
    }

    /// The mandatory all-zero descriptor at index 0.
    pub fn null() -> (entry: GdtEntry)
        ensures
            entry.spec_value() == 0,
    {
        GdtEntry(0)
    }

    pub fn value(&self) -> (v: u64)
        ensures
            v == self.spec_value(),
    {
        self.0
    }

    pub fn base(&self) -> (b: u32)
        ensures
            b == descriptor_base(self.spec_value()),
    {
        ((((self.0 >> 16) & 0xFFFF)) | (((self.0 >> 32) & 0xFF) << 16) | (((self.0 >> 56) & 0xFF)
            << 24)) as u32
    }

    pub fn limit(&self) -> (l: u32)
        ensures
            l == descriptor_limit(self.spec_value()),
    {
        ((self.0 & 0xFFFF) | (((self.0 >> 48) & 0xF) << 16)) as u32
    }

    pub fn access(&self) -> (a: u8)
        ensures
            a == descriptor_access(self.spec_value()),
    {
        ((self.0 >> 40) & 0xFF) as u8
    }

    pub fn flags(&self) -> (f: u8)
        ensures
            f == descriptor_flags(self.spec_value()),
    {
        ((self.0 >> 52) & 0xF) as u8
    }
}

/// Decoding a packed descriptor recovers every field at its documented bit
/// position: the full 32-bit base, the low 20 bits of the limit, the access
/// byte, and the low 4 bits of the flags.
pub proof fn lemma_descriptor_roundtrip(base: u32, limit: u32, access: u8, flags: u8)
    by (bit_vector)
    ensures
        descriptor_base(encode_descriptor(base, limit, access, flags)) == base,
        descriptor_limit(encode_descriptor(base, limit, access, flags)) == limit & 0xFFFFF,
        descriptor_access(encode_descriptor(base, limit, access, flags)) == access,
        descriptor_flags(encode_descriptor(base, limit, access, flags)) == flags & 0xF,
{
}

pub fn privilege_mask(ring: u8) -> (mask: u8)
    ensures
        mask == spec_privilege_mask(ring),
{
    (ring & 0b11) << 5
}

/// A flat code segment: access byte `0x9A` with the ring bits or-ed in.
pub fn code_segment(ring: u8) -> (entry: GdtEntry)
    ensures
        entry.spec_value() == encode_descriptor(
            0,
            LIMIT_4GB,
            0x9A | spec_privilege_mask(ring),
            GRANULARITY_FLAGS,
        ),
{
    GdtEntry::new(0, LIMIT_4GB, 0x9A | privilege_mask(ring), GRANULARITY_FLAGS)
}

/// A flat data segment: access byte `0x92` with the ring bits or-ed in.
pub fn data_segment(ring: u8) -> (entry: GdtEntry)
    ensures
        entry.spec_value() == encode_descriptor(
            0,
            LIMIT_4GB,
            0x92 | spec_privilege_mask(ring),
            GRANULARITY_FLAGS,
        ),
{
    GdtEntry::new(0, LIMIT_4GB, 0x92 | privilege_mask(ring), GRANULARITY_FLAGS)
}

/// A flat stack segment: access byte `0x96` with the ring bits or-ed in. A
/// descriptor of its own so the privilege bits can change independently
/// later.
pub fn stack_segment(ring: u8) -> (entry: GdtEntry)
    ensures
        entry.spec_value() == encode_descriptor(
            0,
            LIMIT_4GB,
            0x96 | spec_privilege_mask(ring),
            GRANULARITY_FLAGS,
        ),
{
    GdtEntry::new(0, LIMIT_4GB, 0x96 | privilege_mask(ring), GRANULARITY_FLAGS)
}

/// The packed values of the 7-entry table: null, kernel code/data/stack at
/// ring 0, user code/data/stack at ring 3.
pub open spec fn spec_gdt_template() -> Seq<u64> {
    seq![
        0u64,
        encode_descriptor(0, LIMIT_4GB, 0x9A | spec_privilege_mask(0), GRANULARITY_FLAGS),
        encode_descriptor(0, LIMIT_4GB, 0x92 | spec_privilege_mask(0), GRANULARITY_FLAGS),
        encode_descriptor(0, LIMIT_4GB, 0x96 | spec_privilege_mask(0), GRANULARITY_FLAGS),
        encode_descriptor(0, LIMIT_4GB, 0x9A | spec_privilege_mask(3), GRANULARITY_FLAGS),
        encode_descriptor(0, LIMIT_4GB, 0x92 | spec_privilege_mask(3), GRANULARITY_FLAGS),
        encode_descriptor(0, LIMIT_4GB, 0x96 | spec_privilege_mask(3), GRANULARITY_FLAGS),
    ]
}

/// Builds the template table that gets copied verbatim to [`GDT_PHYS_ADDR`]
/// before being loaded; the copy at that address, not this value, is what the
/// processor references.
pub fn gdt_template() -> (table: Vec<GdtEntry>)
    ensures
        table@.len() == 7,
        forall|i: int|
            0 <= i < 7 ==> #[trigger] table@[i].spec_value() == spec_gdt_template()[i],
{
    let mut table: Vec<GdtEntry> = Vec::new();
    table.push(GdtEntry::null());
    table.push(code_segment(0));
    table.push(data_segment(0));
    table.push(stack_segment(0));
    table.push(code_segment(3));
    table.push(data_segment(3));
    table.push(stack_segment(3));
    table
}

/// Register-image of the table pointer handed to the descriptor-table load:
/// byte size of the table minus one, and the physical base it was copied to.
pub struct DescriptorTablePointer {
    pub limit: u16,
    pub base: u32,
}

/// Target of the far jump that reloads the code segment: the entry routine's
/// offset under the kernel code selector.
pub struct FarPointer {
    pub offset: u32,
    pub selector: u16,
}

/// The pointer for a freshly copied 7-entry table of 8-byte descriptors.
pub fn gdt_table_pointer() -> (ptr: DescriptorTablePointer)
    ensures
        ptr.limit == 7 * 8 - 1,
        ptr.base == GDT_PHYS_ADDR,
{
    DescriptorTablePointer { limit: 7 * 8 - 1, base: GDT_PHYS_ADDR }
}

/// The far pointer through which execution re-enters at `entry_offset` under
/// the new kernel code segment.
pub fn kernel_entry_far_pointer(entry_offset: u32) -> (ptr: FarPointer)
    ensures
        ptr.offset == entry_offset,
        ptr.selector == KERNEL_CODE_SELECTOR,
{
    FarPointer { offset: entry_offset, selector: KERNEL_CODE_SELECTOR }
}

/// The table index a selector names: its value shifted past the ring bits.
pub fn selector_index(selector: u16) -> (index: u16)
    ensures
        index == selector >> 3,
{
    selector >> 3
}

/// The privilege ring a selector requests: its low two bits.
pub fn selector_ring(selector: u16) -> (ring: u16)
    ensures
        ring == selector & 0b11,
{
    selector & 0b11
}

/// How many entries a stack dump shows, at most.
pub const STACK_DUMP_ENTRIES: usize = 8;

/// Whether the stack pointer lies inside the reserved kernel stack region
/// `[bottom, top)`. The stack-dump diagnostic reports and returns early when
/// it does not — non-fatal.
pub fn esp_in_stack(bottom: u32, top: u32, esp: u32) -> (inside: bool)
    ensures
        inside == (bottom <= esp < top),
{
    !(esp < bottom || esp >= top)
}

/// How many words the stack dump walks: one per 4-byte step from `esp` up to
/// `top`, capped at [`STACK_DUMP_ENTRIES`].
pub open spec fn spec_dump_count(esp: u32, top: u32) -> int {
    if esp >= top {
        0
    } else if top - esp >= 4 * 8 {
        8
    } else {
        ((top - esp) + 3) / 4
    }
}

/// The addresses a stack dump reads: `esp`, `esp + 4`, ... while below
/// `top`, at most [`STACK_DUMP_ENTRIES`] of them. The reads themselves and
/// the printing live outside this crate.
pub fn stack_dump_addresses(esp: u32, top: u32) -> (addrs: Vec<u32>)
    requires
        top <= 0xFFFF_FFFB,  // the 4-byte step past the last word must not wrap
    ensures
        addrs@.len() == spec_dump_count(esp, top),
        forall|k: int| 0 <= k < addrs@.len() ==> addrs@[k] == esp + 4 * k,
{
    let mut addrs: Vec<u32> = Vec::new();
    let mut addr = esp;
    let mut count: usize = 0;
    while addr < top && count < STACK_DUMP_ENTRIES
        invariant
            top <= 0xFFFF_FFFB,
            count == addrs@.len(),
            count <= 8,
            addr == esp + 4 * count,
            count > 0 ==> esp + 4 * (count - 1) < top,
            forall|k: int| 0 <= k < count ==> addrs@[k] == esp + 4 * k,
        decreases 8 - count,
    {
        addrs.push(addr);
        addr = addr + 4;
        count = count + 1;
    }
    addrs
}

/// Kernel selectors decode to ring 0 and indices 1/2/3; user selectors to
/// ring 3 and indices 4/5/6.
pub proof fn lemma_selector_arithmetic()
    by (bit_vector)
    ensures
        KERNEL_CODE_SELECTOR >> 3 == 1 && KERNEL_CODE_SELECTOR & 0b11 == 0,
        KERNEL_DATA_SELECTOR >> 3 == 2 && KERNEL_DATA_SELECTOR & 0b11 == 0,
        KERNEL_STACK_SELECTOR >> 3 == 3 && KERNEL_STACK_SELECTOR & 0b11 == 0,
        USER_CODE_SELECTOR >> 3 == 4 && USER_CODE_SELECTOR & 0b11 == 3,
        USER_DATA_SELECTOR >> 3 == 5 && USER_DATA_SELECTOR & 0b11 == 3,
        USER_STACK_SELECTOR >> 3 == 6 && USER_STACK_SELECTOR & 0b11 == 3,
{
}

/// The 7 template entries decode to the documented access bytes: `0x9A`,
/// `0x92`, `0x96` for the kernel descriptors, the same with ring bits `0x60`
/// or-ed in for the user descriptors, and ring bits 0 or 3 accordingly.
pub proof fn lemma_gdt_template_access_bytes()
    ensures
        spec_gdt_template().len() == 7,
        descriptor_access(spec_gdt_template()[1]) == 0x9A,
        descriptor_access(spec_gdt_template()[2]) == 0x92,
        descriptor_access(spec_gdt_template()[3]) == 0x96,
        descriptor_access(spec_gdt_template()[4]) == 0xFA,
        descriptor_access(spec_gdt_template()[5]) == 0xF2,
        descriptor_access(spec_gdt_template()[6]) == 0xF6,
        forall|i: int|
            1 <= i < 4 ==> (#[trigger] descriptor_access(spec_gdt_template()[i]) >> 5) & 0b11
                == 0,
        forall|i: int|
            4 <= i < 7 ==> (#[trigger] descriptor_access(spec_gdt_template()[i]) >> 5) & 0b11
                == 3,
{
    assert(descriptor_access(
        encode_descriptor(0, 0x000F_FFFF, 0x9A | ((0u8 & 0b11) << 5), 0b1100),
    ) == 0x9A) by (bit_vector);
    assert(descriptor_access(
        encode_descriptor(0, 0x000F_FFFF, 0x92 | ((0u8 & 0b11) << 5), 0b1100),
    ) == 0x92) by (bit_vector);
    assert(descriptor_access(
        encode_descriptor(0, 0x000F_FFFF, 0x96 | ((0u8 & 0b11) << 5), 0b1100),
    ) == 0x96) by (bit_vector);
    assert(descriptor_access(
        encode_descriptor(0, 0x000F_FFFF, 0x9A | ((3u8 & 0b11) << 5), 0b1100),
    ) == 0xFA) by (bit_vector);
    assert(descriptor_access(
        encode_descriptor(0, 0x000F_FFFF, 0x92 | ((3u8 & 0b11) << 5), 0b1100),
    ) == 0xF2) by (bit_vector);
    assert(descriptor_access(
        encode_descriptor(0, 0x000F_FFFF, 0x96 | ((3u8 & 0b11) << 5), 0b1100),
    ) == 0xF6) by (bit_vector);
    assert((0x9Au8 >> 5) & 0b11 == 0 && (0x92u8 >> 5) & 0b11 == 0 && (0x96u8 >> 5) & 0b11 == 0)
        by (bit_vector);
    assert((0xFAu8 >> 5) & 0b11 == 3 && (0xF2u8 >> 5) & 0b11 == 3 && (0xF6u8 >> 5) & 0b11 == 3)
        by (bit_vector);
}

} // verus!
