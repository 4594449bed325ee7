//! Which buffers to create, and in which memory, to place data on the GPU.

use ash::vk;
use vstd::prelude::*;
use crate::usage::{cpu_visible, BufferUsage, UsageFlag};
use crate::vulkan::{
    host_memory_bits, memory_properties, memory_property_bits_of, staging_memory_property_bits,
    vk_buffer_usage_flags, vk_device_local, vk_host_visible, vk_memory_property_flags,
    vk_usage_bits_of,
};

verus! {

/// What a buffer is created with: its size in bytes, its usage, and the raw
/// Vulkan memory properties its memory must have.
#[derive(Clone, Copy, Debug)]
pub struct BufferDesc {
    pub size: u64,
    pub usage: BufferUsage,
    pub memory_property_bits: u32,
}

impl BufferDesc {
    /// A buffer whose memory follows from its usage: host-visible memory for
    /// buffers the CPU writes, device-local memory for the rest.
    pub fn new_with_location(size: u64, usage: BufferUsage) -> (r: Self)
        ensures
            r.size == size,
            r.usage@ == usage@,
            r.memory_property_bits == memory_property_bits_of(usage@),
    {
        BufferDesc { size, usage, memory_property_bits: usage.memory_property_bits() }
    }

    /// A staging buffer: a transfer source, always in memory the CPU maps,
    /// although transfer-source usage alone would not ask for such memory.
    pub fn new_staging(size: u64) -> (r: Self)
        ensures
            r.size == size,
            r.usage@ == set![UsageFlag::TransferSrc],
            r.memory_property_bits == host_memory_bits(),
    {
        BufferDesc {
            size,
            usage: BufferUsage::transfer_src(),
            memory_property_bits: staging_memory_property_bits(),
        }
    }

    /// The Vulkan usage flags to create the buffer with.
    pub fn vk_usage(&self) -> (r: vk::BufferUsageFlags)
        ensures
            r == vk_buffer_usage_flags(vk_usage_bits_of(self.usage@)),
    {
        self.usage.to_vk_usage()
    }

    /// The Vulkan memory properties to allocate the buffer's memory with.
    pub fn vk_memory_properties(&self) -> (r: vk::MemoryPropertyFlags)
        ensures
            r == vk_memory_property_flags(self.memory_property_bits),
    {
        memory_properties(self.memory_property_bits)
    }
}

/// How data reaches a new buffer.
#[derive(Clone, Copy, Debug)]
pub enum UploadPlan {
    /// Create the buffer and write the data into it directly.
    Direct(BufferDesc),
    /// Write the data into `staging`, then copy it on the GPU into `destination`.
    Staged { staging: BufferDesc, destination: BufferDesc },
}

/// The buffer that the CPU writes the data into.
pub open spec fn written_buffer(p: UploadPlan) -> BufferDesc {
    match p {
        UploadPlan::Direct(d) => d,
        UploadPlan::Staged { staging, .. } => staging,
    }
}

/// The buffer that holds the data in the end.
pub open spec fn final_buffer(p: UploadPlan) -> BufferDesc {
    match p {
        UploadPlan::Direct(d) => d,
        UploadPlan::Staged { destination, .. } => destination,
    }
}

/// Plans the upload of `size` bytes into a buffer of usage `usage`. Buffers
/// the CPU can see are written directly; the others are filled through a
/// staging buffer and a GPU copy, and get transfer-destination usage too.
pub fn upload_plan(size: u64, usage: BufferUsage) -> (r: UploadPlan)
    requires
        size > 0,
    ensures
        cpu_visible(usage@) <==> r is Direct,
        (usage@.contains(UsageFlag::Uniform) || usage@.contains(UsageFlag::Storage)) <==> r is Direct,
        written_buffer(r).memory_property_bits == 0b110u32,
        r is Staged ==> final_buffer(r).memory_property_bits == 0b001u32,
        r matches UploadPlan::Direct(d) ==> {
            &&& d.size == size
            &&& d.usage@ == usage@
            &&& d.memory_property_bits == memory_property_bits_of(usage@)
        },
        r matches UploadPlan::Staged { staging, destination } ==> {
            &&& staging.size == size
            &&& staging.usage@ == set![UsageFlag::TransferSrc]
            &&& staging.memory_property_bits == host_memory_bits()
            &&& destination.size == size
            &&& destination.usage@ == usage@.insert(UsageFlag::TransferDst)
            &&& destination.memory_property_bits == vk_device_local()
        },
        written_buffer(r).memory_property_bits & vk_host_visible() != 0,
        usage@.subset_of(final_buffer(r).usage@),
        final_buffer(r).size == size,
{
    proof {
        assert(host_memory_bits() & vk_host_visible() != 0) by (bit_vector);
        assert(host_memory_bits() == 0b110u32) by (bit_vector);
    }
    if usage.is_cpu_visible() {
        UploadPlan::Direct(BufferDesc::new_with_location(size, usage))
    } else {
        let staging = BufferDesc::new_staging(size);
        let dst_usage = usage.union(BufferUsage::transfer_dst());
        assert(dst_usage@ =~= usage@.insert(UsageFlag::TransferDst));
        let destination = BufferDesc::new_with_location(size, dst_usage);
        UploadPlan::Staged { staging, destination }
    }
}

} // verus!
