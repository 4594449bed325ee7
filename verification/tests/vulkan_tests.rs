use ash::vk;
use engine::usage::BufferUsage;
use engine::vulkan::staging_memory_property_bits;

#[test]
fn each_flag_maps_to_its_vulkan_bit() {
    assert_eq!(BufferUsage::vertex().vk_usage_bits(), vk::BufferUsageFlags::VERTEX_BUFFER.as_raw());
    assert_eq!(BufferUsage::index().vk_usage_bits(), vk::BufferUsageFlags::INDEX_BUFFER.as_raw());
    assert_eq!(BufferUsage::uniform().vk_usage_bits(), vk::BufferUsageFlags::UNIFORM_BUFFER.as_raw());
    assert_eq!(BufferUsage::storage().vk_usage_bits(), vk::BufferUsageFlags::STORAGE_BUFFER.as_raw());
    assert_eq!(BufferUsage::transfer_src().vk_usage_bits(), vk::BufferUsageFlags::TRANSFER_SRC.as_raw());
    assert_eq!(BufferUsage::transfer_dst().vk_usage_bits(), vk::BufferUsageFlags::TRANSFER_DST.as_raw());
}

#[test]
fn vulkan_word_values() {
    assert_eq!(BufferUsage::vertex().vk_usage_bits(), 0x80);
    assert_eq!(BufferUsage::vertex().union(BufferUsage::index()).vk_usage_bits(), 0xC0);
    assert_eq!(BufferUsage::uniform().union(BufferUsage::transfer_dst()).vk_usage_bits(), 0x12);
    let all = BufferUsage::vertex()
        .union(BufferUsage::index())
        .union(BufferUsage::uniform())
        .union(BufferUsage::storage())
        .union(BufferUsage::transfer_src())
        .union(BufferUsage::transfer_dst());
    assert_eq!(all.vk_usage_bits(), 0xF3);
}

#[test]
fn vulkan_word_of_union_is_union_of_words() {
    let a = BufferUsage::vertex().union(BufferUsage::uniform());
    let b = BufferUsage::uniform().union(BufferUsage::transfer_src());
    assert_eq!(a.union(b).vk_usage_bits(), a.vk_usage_bits() | b.vk_usage_bits());
}

#[test]
fn to_vk_usage_builds_the_same_flags() {
    let u = BufferUsage::vertex().union(BufferUsage::transfer_dst());
    let flags = u.to_vk_usage();
    assert_eq!(flags.as_raw(), 0x82);
    assert_eq!(flags, vk::BufferUsageFlags::VERTEX_BUFFER | vk::BufferUsageFlags::TRANSFER_DST);
    assert_eq!(BufferUsage::index().to_vk_usage(), vk::BufferUsageFlags::INDEX_BUFFER);
}

#[test]
fn memory_properties_follow_cpu_visibility() {
    let host = vk::MemoryPropertyFlags::HOST_VISIBLE | vk::MemoryPropertyFlags::HOST_COHERENT;
    assert_eq!(BufferUsage::uniform().memory_property_bits(), host.as_raw());
    assert_eq!(BufferUsage::storage().memory_property_bits(), 0b110);
    assert_eq!(
        BufferUsage::vertex().memory_property_bits(),
        vk::MemoryPropertyFlags::DEVICE_LOCAL.as_raw()
    );
    assert_eq!(BufferUsage::transfer_src().memory_property_bits(), 0b001);
}

#[test]
fn staging_memory_is_host_visible_and_coherent() {
    assert_eq!(staging_memory_property_bits(), 0b110);
    assert_eq!(
        engine::vulkan::memory_properties(staging_memory_property_bits()),
        vk::MemoryPropertyFlags::HOST_VISIBLE | vk::MemoryPropertyFlags::HOST_COHERENT
    );
}
