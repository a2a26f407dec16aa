use vstd::prelude::*;

verus! {

/// Access flag: the segment has been accessed.
pub const ACCESS_ACCESSED: u8 = 0x01;
/// Access flag: writable (data segment) or readable (code segment).
pub const ACCESS_WRITABLE: u8 = 0x02;
/// Access flag: grows down (data) or conforming (code).
pub const ACCESS_DIRECTION: u8 = 0x04;
/// Access flag: code segment.
pub const ACCESS_EXECUTABLE: u8 = 0x08;
/// Access flag: code or data descriptor rather than a system descriptor.
pub const ACCESS_NOT_TSS: u8 = 0x10;

/// Largest limit that a byte-granular descriptor can hold.
pub const BYTE_LIMIT_MAX: u32 = 0xFFFFF;

/// A privilege ring.
#[derive(Clone, Copy, Debug, PartialEq, Eq, Structural)]
pub enum PrivilegeLevel {
    Ring0,
    Ring1,
    Ring2,
    Ring3,
}

impl View for PrivilegeLevel {
    type V = u8;

    open spec fn view(&self) -> u8 {
        match self {
            PrivilegeLevel::Ring0 => 0,
            PrivilegeLevel::Ring1 => 1,
            PrivilegeLevel::Ring2 => 2,
            PrivilegeLevel::Ring3 => 3,
        }
    }
}

impl PrivilegeLevel {
    pub fn level(self) -> (r: u8)
        ensures
            r == self@,
            r < 4,
    {
        match self {
            PrivilegeLevel::Ring0 => 0,
            PrivilegeLevel::Ring1 => 1,
            PrivilegeLevel::Ring2 => 2,
            PrivilegeLevel::Ring3 => 3,
        }
    }
}

/// A value for a segment register: table index and requested privilege.
#[derive(Clone, Copy, Debug, PartialEq, Eq, Structural)]
pub struct SegmentSelector(pub u16);

impl View for SegmentSelector {
    type V = u16;

    open spec fn view(&self) -> u16 {
        self.0
    }
}

impl SegmentSelector {
    /// `(index << 3) | privilege`, for a table index below 8192.
    pub fn new(index: u16, rpl: PrivilegeLevel) -> (r: SegmentSelector)
        requires
            index < 8192,
        ensures
            r@ == index * 8 + rpl@,
            r.index() == index,
            r.rpl() == rpl@,
    {
        let p: u16 = rpl.level() as u16;
        let bits: u16 = (index << 3u16) | p;
        assert(bits == index * 8 + p && bits >> 3u16 == index && bits & 3 == p) by (bit_vector)
            requires
                bits == (index << 3u16) | p,
                index < 8192,
                p < 4,
        ;
        SegmentSelector(bits)
    }

    pub open spec fn index(self) -> u16 {
        self.0 >> 3u16
    }

    pub open spec fn rpl(self) -> u16 {
        self.0 & 3
    }
}

/// Whether `limit` survives encoding: it fits the 20-bit field as bytes, or
/// it is a whole number of 4 KiB pages less one byte.
pub open spec fn limit_encodable(limit: u32) -> bool {
    limit <= BYTE_LIMIT_MAX || limit & 0xFFF == 0xFFF
}

/// The 20-bit limit field that holds `limit`.
pub open spec fn limit_field(limit: u32) -> u64 {
    if limit > BYTE_LIMIT_MAX {
        (limit as u64) >> 12u64
    } else {
        limit as u64
    }
}

/// The flags nibble: 32-bit segment, page granular when the limit needs it.
pub open spec fn flags_field(limit: u32) -> u64 {
    if limit > BYTE_LIMIT_MAX {
        0xC
    } else {
        0x4
    }
}

/// The access byte: present, the descriptor privilege, and the access flags.
pub open spec fn access_byte(access: u8, dpl: u8) -> u64 {
    0x80u64 | ((dpl as u64) << 5u64) | (access as u64)
}

/// The architectural 8-byte descriptor, as a little-endian 64-bit value:
/// limit[0:16), base[0:24), access byte, flags | limit[16:20), base[24:32).
pub open spec fn encode_gdt(base: u32, limit: u32, access: u8, dpl: u8) -> u64 {
    let rl = limit_field(limit);
    (rl & 0xFFFF) | (((base as u64) & 0xFFFFFF) << 16u64) | (access_byte(access, dpl) << 40u64)
        | (((rl >> 16u64) & 0xF) << 48u64) | (flags_field(limit) << 52u64) | (((base as u64)
        >> 24u64) << 56u64)
}

pub open spec fn decode_base(raw: u64) -> u32 {
    (((raw >> 16u64) & 0xFFFFFF) | ((raw >> 56u64) << 24u64)) as u32
}

pub open spec fn decode_limit(raw: u64) -> u32 {
    let rl = (raw & 0xFFFF) | (((raw >> 48u64) & 0xF) << 16u64);
    if (raw >> 55u64) & 1 == 1 {
        ((rl << 12u64) | 0xFFF) as u32
    } else {
        rl as u32
    }
}

pub open spec fn decode_access(raw: u64) -> u8 {
    ((raw >> 40u64) & 0x1F) as u8
}

pub open spec fn decode_dpl(raw: u64) -> u8 {
    ((raw >> 45u64) & 3) as u8
}

pub open spec fn decode_present(raw: u64) -> bool {
    (raw >> 47u64) & 1 == 1
}

/// One segment descriptor.
#[derive(Clone, Copy, Debug, PartialEq, Eq, Structural)]
pub struct GdtEntry {
    pub raw: u64,
}

/// Decoding an encoded descriptor gives back its base, its limit, its access
/// flags and its privilege, and marks it present.
pub proof fn lemma_gdt_round_trip(base: u32, limit: u32, access: u8, dpl: u8)
    requires
        limit_encodable(limit),
        access < 0x20,
        dpl < 4,
    ensures
        decode_base(encode_gdt(base, limit, access, dpl)) == base,
        decode_limit(encode_gdt(base, limit, access, dpl)) == limit,
        decode_access(encode_gdt(base, limit, access, dpl)) == access,
        decode_dpl(encode_gdt(base, limit, access, dpl)) == dpl,
        decode_present(encode_gdt(base, limit, access, dpl)),
{
    let b = base as u64;
    let l = limit as u64;
    let rl = limit_field(limit);
    let ab = access_byte(access, dpl);
    let fl = flags_field(limit);
    let a = access as u64;
    let d = dpl as u64;
    let raw = encode_gdt(base, limit, access, dpl);
    assert(rl < 0x100000 && (l > 0xFFFFF ==> rl == l >> 12u64) && (l <= 0xFFFFF ==> rl == l))
        by (bit_vector)
        requires
            l < 0x1_0000_0000,
            l > 0xFFFFF ==> rl == l >> 12u64,
            l <= 0xFFFFF ==> rl == l,
    ;
    assert(ab == 0x80u64 | (d << 5u64) | a);
    assert(ab < 0x100 && (ab >> 5u64) & 3 == d && ab & 0x1F == a && (ab >> 7u64) & 1 == 1)
        by (bit_vector)
        requires
            ab == 0x80u64 | (d << 5u64) | a,
            a < 0x20,
            d < 4,
    ;
    assert(raw == (rl & 0xFFFF) | ((b & 0xFFFFFF) << 16u64) | (ab << 40u64) | (((rl >> 16u64)
        & 0xF) << 48u64) | (fl << 52u64) | ((b >> 24u64) << 56u64));
    assert(((raw >> 16u64) & 0xFFFFFF) | ((raw >> 56u64) << 24u64) == b
        && (raw & 0xFFFF) | (((raw >> 48u64) & 0xF) << 16u64) == rl
        && (raw >> 40u64) & 0x1F == ab & 0x1F
        && (raw >> 45u64) & 3 == (ab >> 5u64) & 3
        && (raw >> 47u64) & 1 == (ab >> 7u64) & 1
        && (raw >> 55u64) & 1 == (fl >> 3u64) & 1) by (bit_vector)
        requires
            raw == (rl & 0xFFFF) | ((b & 0xFFFFFF) << 16u64) | (ab << 40u64) | (((rl >> 16u64)
                & 0xF) << 48u64) | (fl << 52u64) | ((b >> 24u64) << 56u64),
            b < 0x1_0000_0000,
            rl < 0x100000,
            ab < 0x100,
            fl < 0x10,
    ;
    if l > 0xFFFFF {
        assert(fl == 0xC);
        assert(((l >> 12u64) << 12u64) | 0xFFF == l) by (bit_vector)
            requires
                l < 0x1_0000_0000,
                l & 0xFFF == 0xFFF,
        ;
        assert((0xCu64 >> 3u64) & 1 == 1) by (bit_vector);
    } else {
        assert(fl == 0x4);
        assert((0x4u64 >> 3u64) & 1 == 0) by (bit_vector);
    }
}

impl GdtEntry {
    /// The null descriptor that opens every table.
    pub fn null() -> (r: GdtEntry)
        ensures
            r.raw == 0,
    {
        GdtEntry { raw: 0 }
    }

    /// A present code or data descriptor. `access` holds the five low flag
    /// bits (`ACCESS_*`); the limit must survive the 20-bit field.
    pub fn new(base: u32, limit: u32, access: u8, dpl: PrivilegeLevel) -> (r: GdtEntry)
        requires
            limit_encodable(limit),
            access < 0x20,
        ensures
            r.raw == encode_gdt(base, limit, access, dpl@),
            r.base() == base,
            r.limit() == limit,
            r.access() == access,
            r.dpl() == dpl@,
            r.present(),
    {
        let d: u8 = dpl.level();
        let rl: u64 = if limit > BYTE_LIMIT_MAX {
            (limit as u64) >> 12u64
        } else {
            limit as u64
        };
        let fl: u64 = if limit > BYTE_LIMIT_MAX {
            0xC
        } else {
            0x4
        };
        let ab: u64 = 0x80u64 | ((d as u64) << 5u64) | (access as u64);
        let b: u64 = base as u64;
        let raw: u64 = (rl & 0xFFFF) | ((b & 0xFFFFFF) << 16u64) | (ab << 40u64) | (((rl >> 16u64)
            & 0xF) << 48u64) | (fl << 52u64) | ((b >> 24u64) << 56u64);
        proof {
            lemma_gdt_round_trip(base, limit, access, d);
        }
        GdtEntry { raw }
    }

    pub open spec fn base(self) -> u32 {
        decode_base(self.raw)
    }

    pub open spec fn limit(self) -> u32 {
        decode_limit(self.raw)
    }

    pub open spec fn access(self) -> u8 {
        decode_access(self.raw)
    }

    pub open spec fn dpl(self) -> u8 {
        decode_dpl(self.raw)
    }

    pub open spec fn present(self) -> bool {
        decode_present(self.raw)
    }

    pub fn get_base(self) -> (r: u32)
        ensures
            r == self.base(),
    {
        (((self.raw >> 16u64) & 0xFFFFFF) | ((self.raw >> 56u64) << 24u64)) as u32
    }

    pub fn get_limit(self) -> (r: u32)
        ensures
            r == self.limit(),
    {
        let rl: u64 = (self.raw & 0xFFFF) | (((self.raw >> 48u64) & 0xF) << 16u64);
        if (self.raw >> 55u64) & 1 == 1 {
            ((rl << 12u64) | 0xFFF) as u32
        } else {
            rl as u32
        }
    }

    pub fn get_access(self) -> (r: u8)
        ensures
            r == self.access(),
    {
        ((self.raw >> 40u64) & 0x1F) as u8
    }

    pub fn get_dpl(self) -> (r: u8)
        ensures
            r == self.dpl(),
    {
        ((self.raw >> 45u64) & 3) as u8
    }

    pub fn is_present(self) -> (r: bool)
        ensures
            r == self.present(),
    {
        (self.raw >> 47u64) & 1 == 1
    }
}

/// Access flags of the flat code segment: executable, readable.
pub const CODE_ACCESS: u8 = 0x1A;
/// Access flags of the flat data segment: writable.
pub const DATA_ACCESS: u8 = 0x12;
/// Limit of a segment spanning the whole 4 GiB linear space.
pub const FLAT_LIMIT: u32 = 0xFFFF_FFFF;
/// Table index of the code segment.
pub const CODE_INDEX: u16 = 1;
/// Table index of the data segment.
pub const DATA_INDEX: u16 = 2;

/// The flat-model table: the null descriptor, then a ring-0 code segment and
/// a ring-0 data segment, both from address zero over the full 4 GiB.
pub fn build_gdt() -> (r: Vec<GdtEntry>)
    ensures
        r@.len() == 3,
        r@[0].raw == 0,
        r@[1].raw == encode_gdt(0, FLAT_LIMIT, CODE_ACCESS, 0),
        r@[2].raw == encode_gdt(0, FLAT_LIMIT, DATA_ACCESS, 0),
        forall|i: int|
            1 <= i < 3 ==> r@[i].base() == 0 && r@[i].limit() == FLAT_LIMIT && r@[i].dpl() == 0
                && r@[i].present(),
        r@[1].access() == CODE_ACCESS,
        r@[2].access() == DATA_ACCESS,
        CODE_ACCESS == ACCESS_EXECUTABLE | ACCESS_WRITABLE | ACCESS_NOT_TSS,
        DATA_ACCESS == ACCESS_WRITABLE | ACCESS_NOT_TSS,
{
    assert(FLAT_LIMIT & 0xFFF == 0xFFF) by (bit_vector);
    assert(ACCESS_EXECUTABLE | ACCESS_WRITABLE | ACCESS_NOT_TSS == CODE_ACCESS) by (bit_vector);
    assert(ACCESS_WRITABLE | ACCESS_NOT_TSS == DATA_ACCESS) by (bit_vector);
    let mut t: Vec<GdtEntry> = Vec::new();
    t.push(GdtEntry::null());
    t.push(GdtEntry::new(0, FLAT_LIMIT, CODE_ACCESS, PrivilegeLevel::Ring0));
    t.push(GdtEntry::new(0, FLAT_LIMIT, DATA_ACCESS, PrivilegeLevel::Ring0));
    t
}

} // verus!
