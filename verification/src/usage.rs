//! The set of capabilities a GPU buffer is created with, and the memory
//! location that follows from it.

use vstd::prelude::*;

verus! {

/// One capability a buffer can be created with.
#[derive(PartialEq, Eq, Structural, Clone, Copy, Debug)]
pub enum UsageFlag {
    Vertex,
    Index,
    Uniform,
    Storage,
    TransferSrc,
    TransferDst,
}

/// The bit that stands for `f` in a `BufferUsage`.
pub open spec fn flag_bit(f: UsageFlag) -> u32 {
    match f {
        UsageFlag::Vertex => 0b0000_0001,
        UsageFlag::Index => 0b0000_0010,
        UsageFlag::Uniform => 0b0000_0100,
        UsageFlag::Storage => 0b0000_1000,
        UsageFlag::TransferSrc => 0b0001_0000,
        UsageFlag::TransferDst => 0b0010_0000,
    }
}

/// The flags whose bits are set in `bits`.
pub open spec fn flags_of(bits: u32) -> Set<UsageFlag> {
    Set::new(|f: UsageFlag| bits & flag_bit(f) != 0)
}

/// A usage set whose buffers the CPU writes often: uniforms and storage.
pub open spec fn cpu_visible(s: Set<UsageFlag>) -> bool {
    s.contains(UsageFlag::Uniform) || s.contains(UsageFlag::Storage)
}

/// A set of buffer capabilities, stored as bits.
#[derive(Clone, Copy, Debug)]
pub struct BufferUsage {
    bits: u32,
}

/// Where an allocation should live.
#[derive(PartialEq, Eq, Structural, Clone, Copy, Debug)]
pub enum MemoryLocation {
    /// Let the driver decide.
    Unknown,
    /// Memory only the GPU reaches.
    GpuOnly,
    /// Memory the CPU writes and the GPU reads.
    CpuToGpu,
    /// Memory the GPU writes and the CPU reads back.
    GpuToCpu,
}

/// The memory location that a buffer with usage `s` prefers.
pub open spec fn location_for(s: Set<UsageFlag>) -> MemoryLocation {
    if cpu_visible(s) {
        MemoryLocation::CpuToGpu
    } else {
        MemoryLocation::GpuOnly
    }
}

/// Facts about the six low bits of two flag words.
proof fn lemma_bits(a: u32, b: u32)
    requires
        a < 64,
        b < 64,
    ensures
        (a | b) < 64,
        ((a | b) & 1 != 0) == ((a & 1 != 0) || (b & 1 != 0)),
        ((a | b) & 2 != 0) == ((a & 2 != 0) || (b & 2 != 0)),
        ((a | b) & 4 != 0) == ((a & 4 != 0) || (b & 4 != 0)),
        ((a | b) & 8 != 0) == ((a & 8 != 0) || (b & 8 != 0)),
        ((a | b) & 16 != 0) == ((a & 16 != 0) || (b & 16 != 0)),
        ((a | b) & 32 != 0) == ((a & 32 != 0) || (b & 32 != 0)),
        ((b & a) == b) == (((b & 1 != 0) ==> (a & 1 != 0)) && ((b & 2 != 0) ==> (a & 2 != 0))
            && ((b & 4 != 0) ==> (a & 4 != 0)) && ((b & 8 != 0) ==> (a & 8 != 0)) && ((b & 16
            != 0) ==> (a & 16 != 0)) && ((b & 32 != 0) ==> (a & 32 != 0))),
        ((a & b) != 0) == ((a & 1 != 0 && b & 1 != 0) || (a & 2 != 0 && b & 2 != 0) || (a & 4
            != 0 && b & 4 != 0) || (a & 8 != 0 && b & 8 != 0) || (a & 16 != 0 && b & 16 != 0)
            || (a & 32 != 0 && b & 32 != 0)),
{
    assert((a | b) < 64) by (bit_vector)
        requires
            a < 64,
            b < 64,
    ;
    assert(((b & a) == b) == (((b & 1 != 0) ==> (a & 1 != 0)) && ((b & 2 != 0) ==> (a & 2 != 0))
        && ((b & 4 != 0) ==> (a & 4 != 0)) && ((b & 8 != 0) ==> (a & 8 != 0)) && ((b & 16 != 0)
        ==> (a & 16 != 0)) && ((b & 32 != 0) ==> (a & 32 != 0)))) by (bit_vector)
        requires
            a < 64,
            b < 64,
    ;
    assert(((a & b) != 0) == ((a & 1 != 0 && b & 1 != 0) || (a & 2 != 0 && b & 2 != 0) || (a & 4
        != 0 && b & 4 != 0) || (a & 8 != 0 && b & 8 != 0) || (a & 16 != 0 && b & 16 != 0) || (a
        & 32 != 0 && b & 32 != 0))) by (bit_vector)
        requires
            a < 64,
            b < 64,
    ;
    assert(((a | b) & 1 != 0) == ((a & 1 != 0) || (b & 1 != 0)) && ((a | b) & 2 != 0) == ((a
        & 2 != 0) || (b & 2 != 0)) && ((a | b) & 4 != 0) == ((a & 4 != 0) || (b & 4 != 0))
        && ((a | b) & 8 != 0) == ((a & 8 != 0) || (b & 8 != 0)) && ((a | b) & 16 != 0) == ((a
        & 16 != 0) || (b & 16 != 0)) && ((a | b) & 32 != 0) == ((a & 32 != 0) || (b & 32 != 0)))
        by (bit_vector);
}

impl View for BufferUsage {
    type V = Set<UsageFlag>;

    closed spec fn view(&self) -> Set<UsageFlag> {
        flags_of(self.bits)
    }
}

impl BufferUsage {
    #[verifier::type_invariant]
    spec fn known_bits_only(self) -> bool {
        self.bits < 64
    }

    fn single(bits: u32, Ghost(f): Ghost<UsageFlag>) -> (r: Self)
        requires
            bits == flag_bit(f),
        ensures
            r@ == set![f],
    {
        let r = BufferUsage { bits };
        assert(r@ =~= set![f]) by {
            assert forall|g: UsageFlag| (bits & #[trigger] flag_bit(g) != 0) == (g == f) by {
                let gb: u32 = flag_bit(g);
                assert(bits == 1 || bits == 2 || bits == 4 || bits == 8 || bits == 16 || bits
                    == 32);
                assert(gb == 1 || gb == 2 || gb == 4 || gb == 8 || gb == 16 || gb == 32);
                assert(((bits & gb) != 0) == (bits == gb)) by (bit_vector)
                    requires
                        bits == 1 || bits == 2 || bits == 4 || bits == 8 || bits == 16 || bits
                            == 32,
                        gb == 1 || gb == 2 || gb == 4 || gb == 8 || gb == 16 || gb == 32,
                ;
            }
        }
        r
    }

    /// Usable as a vertex buffer.
    pub fn vertex() -> (r: Self)
        ensures
            r@ == set![UsageFlag::Vertex],
    {
        Self::single(0b0000_0001, Ghost(UsageFlag::Vertex))
    }

    /// Usable as an index buffer.
    pub fn index() -> (r: Self)
        ensures
            r@ == set![UsageFlag::Index],
    {
        Self::single(0b0000_0010, Ghost(UsageFlag::Index))
    }

    /// Usable as a uniform buffer.
    pub fn uniform() -> (r: Self)
        ensures
            r@ == set![UsageFlag::Uniform],
    {
        Self::single(0b0000_0100, Ghost(UsageFlag::Uniform))
    }

    /// Usable as a storage buffer.
    pub fn storage() -> (r: Self)
        ensures
            r@ == set![UsageFlag::Storage],
    {
        Self::single(0b0000_1000, Ghost(UsageFlag::Storage))
    }

    /// Usable as the source of a transfer.
    pub fn transfer_src() -> (r: Self)
        ensures
            r@ == set![UsageFlag::TransferSrc],
    {
        Self::single(0b0001_0000, Ghost(UsageFlag::TransferSrc))
    }

    /// Usable as the destination of a transfer.
    pub fn transfer_dst() -> (r: Self)
        ensures
            r@ == set![UsageFlag::TransferDst],
    {
        Self::single(0b0010_0000, Ghost(UsageFlag::TransferDst))
    }

    /// Every flag of `self` and of `other`.
    pub fn union(self, other: Self) -> (r: Self)
        ensures
            r@ == self@ + other@,
    {
        proof {
            use_type_invariant(&self);
            use_type_invariant(&other);
            lemma_bits(self.bits, other.bits);
        }
        let r = BufferUsage { bits: self.bits | other.bits };
        assert(r@ =~= self@ + other@) by {
            assert forall|f: UsageFlag| #[trigger] r@.contains(f) == (self@ + other@).contains(f) by {
                match f {
                    UsageFlag::Vertex => {},
                    UsageFlag::Index => {},
                    UsageFlag::Uniform => {},
                    UsageFlag::Storage => {},
                    UsageFlag::TransferSrc => {},
                    UsageFlag::TransferDst => {},
                }
            }
        }
        r
    }

    /// Whether every flag of `other` is in `self`.
    pub fn contains(self, other: Self) -> (r: bool)
        ensures
            r == other@.subset_of(self@),
    {
        proof {
            use_type_invariant(&self);
            use_type_invariant(&other);
            lemma_bits(self.bits, other.bits);
        }
        let r = other.bits & self.bits == other.bits;
        proof {
            if r {
                assert forall|f: UsageFlag| other@.contains(f) implies self@.contains(f) by {
                    match f {
                        UsageFlag::Vertex => {},
                        UsageFlag::Index => {},
                        UsageFlag::Uniform => {},
                        UsageFlag::Storage => {},
                        UsageFlag::TransferSrc => {},
                        UsageFlag::TransferDst => {},
                    }
                }
            } else {
                if other@.subset_of(self@) {
                    assert(other@.contains(UsageFlag::Vertex) ==> self@.contains(UsageFlag::Vertex));
                    assert(other@.contains(UsageFlag::Index) ==> self@.contains(UsageFlag::Index));
                    assert(other@.contains(UsageFlag::Uniform) ==> self@.contains(UsageFlag::Uniform));
                    assert(other@.contains(UsageFlag::Storage) ==> self@.contains(UsageFlag::Storage));
                    assert(other@.contains(UsageFlag::TransferSrc) ==> self@.contains(
                        UsageFlag::TransferSrc,
                    ));
                    assert(other@.contains(UsageFlag::TransferDst) ==> self@.contains(
                        UsageFlag::TransferDst,
                    ));
                }
            }
        }
        r
    }

    /// Whether `self` and `other` share a flag.
    pub fn intersects(self, other: Self) -> (r: bool)
        ensures
            r == exists|f: UsageFlag| self@.contains(f) && other@.contains(f),
    {
        proof {
            use_type_invariant(&self);
            use_type_invariant(&other);
            lemma_bits(self.bits, other.bits);
        }
        let r = self.bits & other.bits != 0;
        proof {
            if r {
                if self@.contains(UsageFlag::Vertex) && other@.contains(UsageFlag::Vertex) {
                } else if self@.contains(UsageFlag::Index) && other@.contains(UsageFlag::Index) {
                } else if self@.contains(UsageFlag::Uniform) && other@.contains(UsageFlag::Uniform) {
                } else if self@.contains(UsageFlag::Storage) && other@.contains(UsageFlag::Storage) {
                } else if self@.contains(UsageFlag::TransferSrc) && other@.contains(
                    UsageFlag::TransferSrc,
                ) {
                } else {
                    assert(self@.contains(UsageFlag::TransferDst) && other@.contains(
                        UsageFlag::TransferDst,
                    ));
                }
            } else {
                assert forall|f: UsageFlag| !(self@.contains(f) && other@.contains(f)) by {
                    match f {
                        UsageFlag::Vertex => {},
                        UsageFlag::Index => {},
                        UsageFlag::Uniform => {},
                        UsageFlag::Storage => {},
                        UsageFlag::TransferSrc => {},
                        UsageFlag::TransferDst => {},
                    }
                }
            }
        }
        r
    }

    /// The location a buffer of this usage prefers: memory the CPU can
    /// write for uniform and storage buffers, GPU-only memory for the rest.
    pub fn preferred_memory_location(self) -> (r: MemoryLocation)
        ensures
            r == location_for(self@),
            r == (if self@.contains(UsageFlag::Uniform) || self@.contains(UsageFlag::Storage) {
                MemoryLocation::CpuToGpu
            } else {
                MemoryLocation::GpuOnly
            }),
    {
        if self.intersects(Self::uniform().union(Self::storage())) {
            MemoryLocation::CpuToGpu
        } else {
            assert(!self@.contains(UsageFlag::Uniform) && !self@.contains(UsageFlag::Storage)) by {
                if self@.contains(UsageFlag::Uniform) {
                    assert((set![UsageFlag::Uniform] + set![UsageFlag::Storage]).contains(UsageFlag::Uniform));
                }
                if self@.contains(UsageFlag::Storage) {
                    assert((set![UsageFlag::Uniform] + set![UsageFlag::Storage]).contains(UsageFlag::Storage));
                }
            }
            MemoryLocation::GpuOnly
        }
    }

    /// Whether buffers of this usage live in memory the CPU writes.
    pub fn is_cpu_visible(self) -> (r: bool)
        ensures
            r == cpu_visible(self@),
            r == (self@.contains(UsageFlag::Uniform) || self@.contains(UsageFlag::Storage)),
            r == (location_for(self@) == MemoryLocation::CpuToGpu),
    {
        self.preferred_memory_location() == MemoryLocation::CpuToGpu
    }
}

/// Adding transfer capabilities to a usage never moves its buffers to other
/// memory: only uniform and storage use decides the location.
pub proof fn law_transfer_flags_keep_location(s: Set<UsageFlag>)
    ensures
        location_for(s.insert(UsageFlag::TransferDst)) == location_for(s),
        location_for(s.insert(UsageFlag::TransferSrc)) == location_for(s),
        location_for(set![UsageFlag::TransferSrc]) == MemoryLocation::GpuOnly,
{
}

/// A usage is CPU-visible exactly when it holds uniform or storage use,
/// whatever else it holds: vertex, index and transfer use never change it.
pub proof fn law_cpu_visible_iff_uniform_or_storage(s: Set<UsageFlag>, f: UsageFlag)
    ensures
        cpu_visible(s) == (s.contains(UsageFlag::Uniform) || s.contains(UsageFlag::Storage)),
        cpu_visible(s) == (location_for(s) == MemoryLocation::CpuToGpu),
        f != UsageFlag::Uniform && f != UsageFlag::Storage ==> cpu_visible(s.insert(f)) == cpu_visible(s)
            && cpu_visible(s.remove(f)) == cpu_visible(s),
        cpu_visible(s.insert(UsageFlag::Uniform)),
        cpu_visible(s.insert(UsageFlag::Storage)),
{
    if f != UsageFlag::Uniform && f != UsageFlag::Storage {
        assert(s.insert(f).contains(UsageFlag::Uniform) == s.contains(UsageFlag::Uniform));
        assert(s.insert(f).contains(UsageFlag::Storage) == s.contains(UsageFlag::Storage));
        assert(s.remove(f).contains(UsageFlag::Uniform) == s.contains(UsageFlag::Uniform));
        assert(s.remove(f).contains(UsageFlag::Storage) == s.contains(UsageFlag::Storage));
    }
    assert(s.insert(UsageFlag::Uniform).contains(UsageFlag::Uniform));
    assert(s.insert(UsageFlag::Storage).contains(UsageFlag::Storage));
}

/// The preferred location is only ever CPU-to-GPU or GPU-only: CPU-to-GPU
/// for usages with uniform or storage use, GPU-only for every other usage.
pub proof fn law_preferred_location(s: Set<UsageFlag>)
    ensures
        location_for(s) == MemoryLocation::CpuToGpu || location_for(s) == MemoryLocation::GpuOnly,
        location_for(s) == MemoryLocation::CpuToGpu <==> (s.contains(UsageFlag::Uniform)
            || s.contains(UsageFlag::Storage)),
        location_for(s) == MemoryLocation::GpuOnly <==> (!s.contains(UsageFlag::Uniform)
            && !s.contains(UsageFlag::Storage)),
        location_for(s) != MemoryLocation::GpuToCpu,
        location_for(s) != MemoryLocation::Unknown,
{
}

} // verus!
