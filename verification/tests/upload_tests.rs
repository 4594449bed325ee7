use ash::vk;
use engine::upload::{upload_plan, BufferDesc, UploadPlan};
use engine::usage::BufferUsage;

#[test]
fn uniform_buffers_are_written_directly() {
    match upload_plan(64, BufferUsage::uniform()) {
        UploadPlan::Direct(d) => {
            assert_eq!(d.size, 64);
            assert!(d.usage.contains(BufferUsage::uniform()));
            assert!(!d.usage.contains(BufferUsage::transfer_dst()));
            assert_eq!(d.memory_property_bits, 0b110);
            assert_eq!(d.vk_usage(), vk::BufferUsageFlags::UNIFORM_BUFFER);
        }
        UploadPlan::Staged { .. } => panic!("a uniform buffer needs no staging"),
    }
}

#[test]
fn vertex_buffers_go_through_staging() {
    match upload_plan(1024, BufferUsage::vertex()) {
        UploadPlan::Staged { staging, destination } => {
            assert_eq!(staging.size, 1024);
            assert!(staging.usage.contains(BufferUsage::transfer_src()));
            assert!(!staging.usage.contains(BufferUsage::vertex()));
            assert_eq!(staging.memory_property_bits, 0b110);
            assert_eq!(staging.vk_usage(), vk::BufferUsageFlags::TRANSFER_SRC);
            assert_eq!(destination.size, 1024);
            assert!(destination.usage.contains(BufferUsage::vertex()));
            assert!(destination.usage.contains(BufferUsage::transfer_dst()));
            assert_eq!(destination.memory_property_bits, 0b001);
            assert_eq!(
                destination.vk_usage(),
                vk::BufferUsageFlags::VERTEX_BUFFER | vk::BufferUsageFlags::TRANSFER_DST
            );
            assert_eq!(destination.vk_memory_properties(), vk::MemoryPropertyFlags::DEVICE_LOCAL);
        }
        UploadPlan::Direct(_) => panic!("a vertex buffer is not CPU-visible"),
    }
}

#[test]
fn index_buffers_keep_their_usage_after_staging() {
    match upload_plan(6, BufferUsage::index()) {
        UploadPlan::Staged { destination, .. } => {
            assert!(destination.usage.contains(BufferUsage::index()));
            assert_eq!(destination.usage.vk_usage_bits(), 0x42);
        }
        UploadPlan::Direct(_) => panic!("an index buffer is not CPU-visible"),
    }
}

#[test]
fn staging_differs_from_placement_by_usage() {
    let staging = BufferDesc::new_staging(16);
    let placed = BufferDesc::new_with_location(16, BufferUsage::transfer_src());
    assert_eq!(staging.memory_property_bits, 0b110);
    assert_eq!(placed.memory_property_bits, 0b001);
    assert_eq!(staging.usage.vk_usage_bits(), placed.usage.vk_usage_bits());
}

#[test]
fn written_buffer_is_always_host_visible() {
    let usages = [
        BufferUsage::vertex(),
        BufferUsage::index(),
        BufferUsage::uniform(),
        BufferUsage::storage(),
        BufferUsage::transfer_src(),
        BufferUsage::vertex().union(BufferUsage::storage()),
    ];
    for u in usages {
        let written = match upload_plan(4, u) {
            UploadPlan::Direct(d) => d,
            UploadPlan::Staged { staging, .. } => staging,
        };
        assert_ne!(written.memory_property_bits & vk::MemoryPropertyFlags::HOST_VISIBLE.as_raw(), 0);
    }
}
