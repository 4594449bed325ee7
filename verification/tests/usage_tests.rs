use engine::usage::{BufferUsage, MemoryLocation};

#[test]
fn single_flags_contain_themselves_only() {
    let v = BufferUsage::vertex();
    assert!(v.contains(BufferUsage::vertex()));
    assert!(!v.contains(BufferUsage::index()));
    assert!(!v.contains(BufferUsage::uniform()));
    assert!(!BufferUsage::storage().contains(BufferUsage::transfer_src()));
    assert!(!BufferUsage::transfer_src().contains(BufferUsage::transfer_dst()));
}

#[test]
fn union_contains_both_parts() {
    let u = BufferUsage::vertex().union(BufferUsage::transfer_dst());
    assert!(u.contains(BufferUsage::vertex()));
    assert!(u.contains(BufferUsage::transfer_dst()));
    assert!(u.contains(BufferUsage::vertex().union(BufferUsage::transfer_dst())));
    assert!(!u.contains(BufferUsage::index()));
    assert!(!u.contains(BufferUsage::vertex().union(BufferUsage::index())));
}

#[test]
fn union_is_commutative_on_concrete_flags() {
    let a = BufferUsage::uniform().union(BufferUsage::index());
    let b = BufferUsage::index().union(BufferUsage::uniform());
    assert!(a.contains(b) && b.contains(a));
}

#[test]
fn intersects_needs_a_shared_flag() {
    let a = BufferUsage::vertex().union(BufferUsage::uniform());
    assert!(a.intersects(BufferUsage::uniform().union(BufferUsage::storage())));
    assert!(!a.intersects(BufferUsage::index().union(BufferUsage::storage())));
    assert!(!BufferUsage::vertex().intersects(BufferUsage::index()));
}

#[test]
fn uniform_and_storage_prefer_cpu_to_gpu() {
    assert_eq!(BufferUsage::uniform().preferred_memory_location(), MemoryLocation::CpuToGpu);
    assert_eq!(BufferUsage::storage().preferred_memory_location(), MemoryLocation::CpuToGpu);
    assert_eq!(
        BufferUsage::vertex().union(BufferUsage::storage()).preferred_memory_location(),
        MemoryLocation::CpuToGpu
    );
    assert!(BufferUsage::uniform().is_cpu_visible());
}

#[test]
fn vertex_index_and_transfer_prefer_gpu_only() {
    assert_eq!(BufferUsage::vertex().preferred_memory_location(), MemoryLocation::GpuOnly);
    assert_eq!(BufferUsage::index().preferred_memory_location(), MemoryLocation::GpuOnly);
    assert_eq!(BufferUsage::transfer_src().preferred_memory_location(), MemoryLocation::GpuOnly);
    assert!(!BufferUsage::vertex().is_cpu_visible());
    assert!(!BufferUsage::transfer_src().union(BufferUsage::transfer_dst()).is_cpu_visible());
}

#[test]
fn transfer_destination_keeps_the_location() {
    let v = BufferUsage::vertex();
    let d = v.union(BufferUsage::transfer_dst());
    assert_eq!(v.preferred_memory_location(), d.preferred_memory_location());
    let u = BufferUsage::uniform();
    let du = u.union(BufferUsage::transfer_dst());
    assert_eq!(u.preferred_memory_location(), du.preferred_memory_location());
}
