//! Translation of buffer usage and memory needs into Vulkan flag words, and
//! the `ash` items that the translation relies on.

use ash::vk;
use vstd::prelude::*;
use crate::usage::{cpu_visible, BufferUsage, UsageFlag};

verus! {

#[verifier::external_type_specification]
#[verifier::external_body]
pub struct ExBufferUsageFlags(vk::BufferUsageFlags);

#[verifier::external_type_specification]
#[verifier::external_body]
pub struct ExMemoryPropertyFlags(vk::MemoryPropertyFlags);

/// What `vk::BufferUsageFlags::from_raw` gives for a raw flag word.
pub uninterp spec fn vk_buffer_usage_flags(raw: u32) -> vk::BufferUsageFlags;

/// What `vk::MemoryPropertyFlags::from_raw` gives for a raw flag word.
pub uninterp spec fn vk_memory_property_flags(raw: u32) -> vk::MemoryPropertyFlags;

/// Wraps `vk::BufferUsageFlags::from_raw`; the flags it makes are named by
/// `vk_buffer_usage_flags`, so equal words give equal flags.
#[verifier::external_body]
fn buffer_usage_flags_from_raw(raw: u32) -> (r: vk::BufferUsageFlags)
    ensures
        r == vk_buffer_usage_flags(raw),
{
    vk::BufferUsageFlags::from_raw(raw)
}

/// Wraps `vk::MemoryPropertyFlags::from_raw`; the flags it makes are named by
/// `vk_memory_property_flags`.
#[verifier::external_body]
fn memory_property_flags_from_raw(raw: u32) -> (r: vk::MemoryPropertyFlags)
    ensures
        r == vk_memory_property_flags(raw),
{
    vk::MemoryPropertyFlags::from_raw(raw)
}

/// Raw word of `vk::BufferUsageFlags::VERTEX_BUFFER`, which `ash` defines as bit 7.
#[verifier::external_body]
fn vk_vertex_buffer_bit() -> (r: u32)
    ensures
        r == 0b1000_0000,
{
    vk::BufferUsageFlags::VERTEX_BUFFER.as_raw()
}

/// Raw word of `vk::BufferUsageFlags::INDEX_BUFFER`, which `ash` defines as bit 6.
#[verifier::external_body]
fn vk_index_buffer_bit() -> (r: u32)
    ensures
        r == 0b0100_0000,
{
    vk::BufferUsageFlags::INDEX_BUFFER.as_raw()
}

/// Raw word of `vk::BufferUsageFlags::UNIFORM_BUFFER`, which `ash` defines as bit 4.
#[verifier::external_body]
fn vk_uniform_buffer_bit() -> (r: u32)
    ensures
        r == 0b0001_0000,
{
    vk::BufferUsageFlags::UNIFORM_BUFFER.as_raw()
}

/// Raw word of `vk::BufferUsageFlags::STORAGE_BUFFER`, which `ash` defines as bit 5.
#[verifier::external_body]
fn vk_storage_buffer_bit() -> (r: u32)
    ensures
        r == 0b0010_0000,
{
    vk::BufferUsageFlags::STORAGE_BUFFER.as_raw()
}

/// Raw word of `vk::BufferUsageFlags::TRANSFER_SRC`, which `ash` defines as bit 0.
#[verifier::external_body]
fn vk_transfer_src_bit() -> (r: u32)
    ensures
        r == 0b0000_0001,
{
    vk::BufferUsageFlags::TRANSFER_SRC.as_raw()
}

/// Raw word of `vk::BufferUsageFlags::TRANSFER_DST`, which `ash` defines as bit 1.
#[verifier::external_body]
fn vk_transfer_dst_bit() -> (r: u32)
    ensures
        r == 0b0000_0010,
{
    vk::BufferUsageFlags::TRANSFER_DST.as_raw()
}

/// Raw word of `vk::MemoryPropertyFlags::DEVICE_LOCAL`, which `ash` defines as bit 0.
#[verifier::external_body]
fn vk_device_local_bit() -> (r: u32)
    ensures
        r == 0b001,
{
    vk::MemoryPropertyFlags::DEVICE_LOCAL.as_raw()
}

/// Raw word of `vk::MemoryPropertyFlags::HOST_VISIBLE`, which `ash` defines as bit 1.
#[verifier::external_body]
fn vk_host_visible_bit() -> (r: u32)
    ensures
        r == 0b010,
{
    vk::MemoryPropertyFlags::HOST_VISIBLE.as_raw()
}

/// Raw word of `vk::MemoryPropertyFlags::HOST_COHERENT`, which `ash` defines as bit 2.
#[verifier::external_body]
fn vk_host_coherent_bit() -> (r: u32)
    ensures
        r == 0b100,
{
    vk::MemoryPropertyFlags::HOST_COHERENT.as_raw()
}

/// The Vulkan buffer-usage bit that each flag stands for.
pub open spec fn vk_flag_bit(f: UsageFlag) -> u32 {
    match f {
        UsageFlag::Vertex => 0b1000_0000,
        UsageFlag::Index => 0b0100_0000,
        UsageFlag::Uniform => 0b0001_0000,
        UsageFlag::Storage => 0b0010_0000,
        UsageFlag::TransferSrc => 0b0000_0001,
        UsageFlag::TransferDst => 0b0000_0010,
    }
}

/// `f`'s Vulkan bit if `s` holds `f`, else nothing.
pub open spec fn vk_bit_if(s: Set<UsageFlag>, f: UsageFlag) -> u32 {
    if s.contains(f) {
        vk_flag_bit(f)
    } else {
        0
    }
}

/// The Vulkan buffer-usage word for the flags `s`: the union of their bits.
pub open spec fn vk_usage_bits_of(s: Set<UsageFlag>) -> u32 {
    vk_bit_if(s, UsageFlag::Vertex) | vk_bit_if(s, UsageFlag::Index) | vk_bit_if(
        s,
        UsageFlag::Uniform,
    ) | vk_bit_if(s, UsageFlag::Storage) | vk_bit_if(s, UsageFlag::TransferSrc) | vk_bit_if(
        s,
        UsageFlag::TransferDst,
    )
}

/// Vulkan `DEVICE_LOCAL` memory bit.
pub open spec fn vk_device_local() -> u32 {
    0b001
}

/// Vulkan `HOST_VISIBLE` memory bit.
pub open spec fn vk_host_visible() -> u32 {
    0b010
}

/// Vulkan `HOST_COHERENT` memory bit.
pub open spec fn vk_host_coherent() -> u32 {
    0b100
}

/// Memory the CPU maps and writes without explicit flushes.
pub open spec fn host_memory_bits() -> u32 {
    vk_host_visible() | vk_host_coherent()
}

/// The memory properties asked for a buffer with usage `s`.
pub open spec fn memory_property_bits_of(s: Set<UsageFlag>) -> u32 {
    if cpu_visible(s) {
        host_memory_bits()
    } else {
        vk_device_local()
    }
}

proof fn lemma_or_zero(x: u32)
    ensures
        x | 0 == x,
        0 | x == x,
{
    assert(x | 0 == x && 0 | x == x) by (bit_vector);
}

impl BufferUsage {
    /// The raw Vulkan buffer-usage word for these flags.
    pub fn vk_usage_bits(self) -> (r: u32)
        ensures
            r == vk_usage_bits_of(self@),
    {
        let ghost s = self@;
        let mut flags: u32 = 0;
        if self.contains(Self::vertex()) {
            flags = flags | vk_vertex_buffer_bit();
        }
        proof {
            lemma_or_zero(0x80);
            assert(s.contains(UsageFlag::Vertex) == set![UsageFlag::Vertex].subset_of(s));
            assert(flags == vk_bit_if(s, UsageFlag::Vertex));
        }
        let ghost f1: u32 = flags;
        if self.contains(Self::index()) {
            flags = flags | vk_index_buffer_bit();
        }
        proof {
            lemma_or_zero(f1);
            assert(s.contains(UsageFlag::Index) == set![UsageFlag::Index].subset_of(s));
            assert(flags == f1 | vk_bit_if(s, UsageFlag::Index));
        }
        let ghost f2: u32 = flags;
        if self.contains(Self::uniform()) {
            flags = flags | vk_uniform_buffer_bit();
        }
        proof {
            lemma_or_zero(f2);
            assert(s.contains(UsageFlag::Uniform) == set![UsageFlag::Uniform].subset_of(s));
            assert(flags == f2 | vk_bit_if(s, UsageFlag::Uniform));
        }
        let ghost f3: u32 = flags;
        if self.contains(Self::storage()) {
            flags = flags | vk_storage_buffer_bit();
        }
        proof {
            lemma_or_zero(f3);
            assert(s.contains(UsageFlag::Storage) == set![UsageFlag::Storage].subset_of(s));
            assert(flags == f3 | vk_bit_if(s, UsageFlag::Storage));
        }
        let ghost f4: u32 = flags;
        if self.contains(Self::transfer_src()) {
            flags = flags | vk_transfer_src_bit();
        }
        proof {
            lemma_or_zero(f4);
            assert(s.contains(UsageFlag::TransferSrc) == set![UsageFlag::TransferSrc].subset_of(s));
            assert(flags == f4 | vk_bit_if(s, UsageFlag::TransferSrc));
        }
        let ghost f5: u32 = flags;
        if self.contains(Self::transfer_dst()) {
            flags = flags | vk_transfer_dst_bit();
        }
        proof {
            lemma_or_zero(f5);
            assert(s.contains(UsageFlag::TransferDst) == set![UsageFlag::TransferDst].subset_of(s));
            assert(flags == f5 | vk_bit_if(s, UsageFlag::TransferDst));
        }
        flags
    }

    /// The Vulkan buffer-usage flags for these flags.
    pub fn to_vk_usage(self) -> (r: vk::BufferUsageFlags)
        ensures
            r == vk_buffer_usage_flags(vk_usage_bits_of(self@)),
    {
        buffer_usage_flags_from_raw(self.vk_usage_bits())
    }

    /// The raw Vulkan memory-property word for a buffer of this usage:
    /// host-visible and host-coherent memory when the CPU writes it,
    /// device-local memory otherwise.
    pub fn memory_property_bits(self) -> (r: u32)
        ensures
            r == memory_property_bits_of(self@),
            r == (if self@.contains(UsageFlag::Uniform) || self@.contains(UsageFlag::Storage) {
                0b110u32
            } else {
                0b001u32
            }),
    {
        proof {
            assert(host_memory_bits() == 0b110u32) by (bit_vector);
        }
        if self.is_cpu_visible() {
            vk_host_visible_bit() | vk_host_coherent_bit()
        } else {
            vk_device_local_bit()
        }
    }
}

/// The raw memory-property word of a staging buffer: always memory that the
/// CPU maps, whatever its usage.
pub fn staging_memory_property_bits() -> (r: u32)
    ensures
        r == host_memory_bits(),
{
    vk_host_visible_bit() | vk_host_coherent_bit()
}

/// The Vulkan memory-property flags for a raw memory-property word.
pub fn memory_properties(bits: u32) -> (r: vk::MemoryPropertyFlags)
    ensures
        r == vk_memory_property_flags(bits),
{
    memory_property_flags_from_raw(bits)
}

/// Translating a union of usages gives the union of their Vulkan words.
pub proof fn law_vk_usage_of_union(a: Set<UsageFlag>, b: Set<UsageFlag>)
    ensures
        vk_usage_bits_of(a + b) == vk_usage_bits_of(a) | vk_usage_bits_of(b),
{
    let u = a + b;
    let (av, ai, au, ast, ats, atd) = (
        a.contains(UsageFlag::Vertex),
        a.contains(UsageFlag::Index),
        a.contains(UsageFlag::Uniform),
        a.contains(UsageFlag::Storage),
        a.contains(UsageFlag::TransferSrc),
        a.contains(UsageFlag::TransferDst),
    );
    let (bv, bi, bu, bst, bts, btd) = (
        b.contains(UsageFlag::Vertex),
        b.contains(UsageFlag::Index),
        b.contains(UsageFlag::Uniform),
        b.contains(UsageFlag::Storage),
        b.contains(UsageFlag::TransferSrc),
        b.contains(UsageFlag::TransferDst),
    );
    assert(u.contains(UsageFlag::Vertex) == (av || bv));
    assert(u.contains(UsageFlag::Index) == (ai || bi));
    assert(u.contains(UsageFlag::Uniform) == (au || bu));
    assert(u.contains(UsageFlag::Storage) == (ast || bst));
    assert(u.contains(UsageFlag::TransferSrc) == (ats || bts));
    assert(u.contains(UsageFlag::TransferDst) == (atd || btd));
    assert(((if av || bv { 0x80u32 } else { 0 }) | (if ai || bi { 0x40u32 } else { 0 }) | (if au
        || bu { 0x10u32 } else { 0 }) | (if ast || bst { 0x20u32 } else { 0 }) | (if ats || bts {
        0x1u32
    } else { 0 }) | (if atd || btd { 0x2u32 } else { 0 })) == (((if av { 0x80u32 } else { 0 }) | (
    if ai { 0x40u32 } else { 0 }) | (if au { 0x10u32 } else { 0 }) | (if ast { 0x20u32 } else { 0 })
        | (if ats { 0x1u32 } else { 0 }) | (if atd { 0x2u32 } else { 0 })) | ((if bv { 0x80u32 } else {
        0
    }) | (if bi { 0x40u32 } else { 0 }) | (if bu { 0x10u32 } else { 0 }) | (if bst { 0x20u32 } else {
        0
    }) | (if bts { 0x1u32 } else { 0 }) | (if btd { 0x2u32 } else { 0 })))) by (bit_vector);
}

/// The Vulkan word of a usage carries the Vulkan bit of exactly the flags
/// the usage holds: no flag is lost and none is added.
pub proof fn law_vk_usage_is_faithful(s: Set<UsageFlag>, f: UsageFlag)
    ensures
        (vk_usage_bits_of(s) & vk_flag_bit(f) != 0) == s.contains(f),
        (vk_usage_bits_of(s) & 0x80 != 0) == s.contains(UsageFlag::Vertex),
        (vk_usage_bits_of(s) & 0x40 != 0) == s.contains(UsageFlag::Index),
        (vk_usage_bits_of(s) & 0x10 != 0) == s.contains(UsageFlag::Uniform),
        (vk_usage_bits_of(s) & 0x20 != 0) == s.contains(UsageFlag::Storage),
        (vk_usage_bits_of(s) & 0x01 != 0) == s.contains(UsageFlag::TransferSrc),
        (vk_usage_bits_of(s) & 0x02 != 0) == s.contains(UsageFlag::TransferDst),
        vk_usage_bits_of(s) & 0xffff_ff0c == 0,
{
    let (v, i, u, st, ts, td) = (
        s.contains(UsageFlag::Vertex),
        s.contains(UsageFlag::Index),
        s.contains(UsageFlag::Uniform),
        s.contains(UsageFlag::Storage),
        s.contains(UsageFlag::TransferSrc),
        s.contains(UsageFlag::TransferDst),
    );
    let w: u32 = vk_usage_bits_of(s);
    assert(w == (if v { 0x80u32 } else { 0 }) | (if i { 0x40u32 } else { 0 }) | (if u { 0x10u32 } else {
        0
    }) | (if st { 0x20u32 } else { 0 }) | (if ts { 0x1u32 } else { 0 }) | (if td { 0x2u32 } else { 0 }));
    assert(((w & 0x80) != 0) == v && ((w & 0x40) != 0) == i && ((w & 0x10) != 0) == u && ((w & 0x20)
        != 0) == st && ((w & 0x1) != 0) == ts && ((w & 0x2) != 0) == td) by (bit_vector)
        requires
            w == (if v { 0x80u32 } else { 0 }) | (if i { 0x40u32 } else { 0 }) | (if u { 0x10u32 } else {
                0
            }) | (if st { 0x20u32 } else { 0 }) | (if ts { 0x1u32 } else { 0 }) | (if td { 0x2u32 } else {
                0
            }),
    ;
    assert(w & 0xffff_ff0c == 0) by (bit_vector)
        requires
            w == (if v { 0x80u32 } else { 0 }) | (if i { 0x40u32 } else { 0 }) | (if u { 0x10u32 } else {
                0
            }) | (if st { 0x20u32 } else { 0 }) | (if ts { 0x1u32 } else { 0 }) | (if td { 0x2u32 } else {
                0
            }),
    ;
}

/// A staging buffer's memory is host-visible, while a buffer placed by its
/// usage alone with transfer-source usage would get device-local memory.
pub proof fn law_staging_memory_is_host_visible()
    ensures
        host_memory_bits() & vk_host_visible() != 0,
        memory_property_bits_of(set![UsageFlag::TransferSrc]) == vk_device_local(),
        vk_device_local() & vk_host_visible() == 0,
{
    assert(host_memory_bits() & vk_host_visible() != 0) by (bit_vector);
    assert(vk_device_local() & vk_host_visible() == 0) by (bit_vector);
}

/// The memory-property word of a usage: exactly HOST_VISIBLE|HOST_COHERENT
/// (0b110) when it holds uniform or storage use, whatever else it holds, and
/// exactly DEVICE_LOCAL (0b001) for every other usage.
pub proof fn law_memory_property_bits(s: Set<UsageFlag>, f: UsageFlag)
    ensures
        (s.contains(UsageFlag::Uniform) || s.contains(UsageFlag::Storage))
            ==> memory_property_bits_of(s) == 0b110u32,
        !(s.contains(UsageFlag::Uniform) || s.contains(UsageFlag::Storage))
            ==> memory_property_bits_of(s) == 0b001u32,
        memory_property_bits_of(s) & 0b010u32 != 0 <==> (s.contains(UsageFlag::Uniform)
            || s.contains(UsageFlag::Storage)),
        memory_property_bits_of(s) & 0b100u32 != 0 <==> (s.contains(UsageFlag::Uniform)
            || s.contains(UsageFlag::Storage)),
        f != UsageFlag::Uniform && f != UsageFlag::Storage ==> memory_property_bits_of(s.insert(f))
            == memory_property_bits_of(s),
{
    assert(host_memory_bits() == 0b110u32) by (bit_vector);
    assert(0b110u32 & 0b010u32 != 0 && 0b110u32 & 0b100u32 != 0 && 0b001u32 & 0b010u32 == 0
        && 0b001u32 & 0b100u32 == 0) by (bit_vector);
    if f != UsageFlag::Uniform && f != UsageFlag::Storage {
        assert(s.insert(f).contains(UsageFlag::Uniform) == s.contains(UsageFlag::Uniform));
        assert(s.insert(f).contains(UsageFlag::Storage) == s.contains(UsageFlag::Storage));
    }
}

} // verus!
