use rust_core::memory::MemoryManager;
use rust_core::region::MemoryRegion;

#[test]
fn allocate_then_read_gives_zero_bytes() {
    let mut memory = MemoryManager::new();
    assert_eq!(memory.allocate("scratch", 4), &mut [0u8, 0, 0, 0][..]);
    assert_eq!(memory.read("scratch"), Some(&[0u8, 0, 0, 0][..]));
}

#[test]
fn allocate_of_size_zero_gives_an_empty_buffer() {
    let mut memory = MemoryManager::new();
    assert!(memory.allocate("empty", 0).is_empty());
    assert_eq!(memory.read("empty"), Some(&[][..]));
}

#[test]
fn allocate_replaces_the_buffer_under_a_taken_key() {
    let mut memory = MemoryManager::new();
    assert_eq!(memory.write("k", &[1, 2, 3, 4, 5]), Ok(()));
    assert_eq!(memory.allocate("k", 2), &mut [0u8, 0][..]);
    assert_eq!(memory.read("k"), Some(&[0u8, 0][..]));
}

#[test]
fn what_is_written_through_the_view_is_read_back() {
    let mut memory = MemoryManager::new();
    let view = memory.allocate("k", 3);
    view[0] = 7;
    view[2] = 9;
    assert_eq!(memory.read("k"), Some(&[7u8, 0, 9][..]));
}

#[test]
fn read_of_a_free_key_is_none() {
    let memory = MemoryManager::new();
    assert_eq!(memory.read("nothing"), None);
}

#[test]
fn write_within_capacity_overwrites_the_prefix_only() {
    let mut memory = MemoryManager::new();
    assert_eq!(memory.write("k", &[1, 2, 3, 4]), Ok(()));
    assert_eq!(memory.write("k", &[9, 8]), Ok(()));
    assert_eq!(memory.read("k"), Some(&[9u8, 8, 3, 4][..]));
}

#[test]
fn write_of_exactly_the_capacity_replaces_every_byte() {
    let mut memory = MemoryManager::new();
    memory.allocate("k", 3);
    assert_eq!(memory.write("k", &[5, 6, 7]), Ok(()));
    assert_eq!(memory.read("k"), Some(&[5u8, 6, 7][..]));
}

#[test]
fn write_of_no_data_changes_nothing() {
    let mut memory = MemoryManager::new();
    assert_eq!(memory.write("k", &[1, 2]), Ok(()));
    assert_eq!(memory.write("k", &[]), Ok(()));
    assert_eq!(memory.read("k"), Some(&[1u8, 2][..]));
}

#[test]
fn write_beyond_capacity_fails_and_keeps_the_buffer() {
    let mut memory = MemoryManager::new();
    assert_eq!(memory.write("k", &[1, 2]), Ok(()));
    assert_eq!(memory.write("k", &[7, 8, 9]), Err("Buffer too small: k".to_string()));
    assert_eq!(memory.read("k"), Some(&[1u8, 2][..]));
}

#[test]
fn write_to_a_zero_sized_buffer_fails_for_any_data() {
    let mut memory = MemoryManager::new();
    memory.allocate("k", 0);
    assert_eq!(memory.write("k", &[1]), Err("Buffer too small: k".to_string()));
    assert_eq!(memory.read("k"), Some(&[][..]));
}

#[test]
fn write_to_a_free_key_stores_a_copy_of_the_data() {
    let mut memory = MemoryManager::new();
    assert_eq!(memory.write("fresh", &[4, 5, 6]), Ok(()));
    assert_eq!(memory.read("fresh"), Some(&[4u8, 5, 6][..]));
}

#[test]
fn write_of_no_data_to_a_free_key_stores_an_empty_buffer() {
    let mut memory = MemoryManager::new();
    assert_eq!(memory.write("fresh", &[]), Ok(()));
    assert_eq!(memory.read("fresh"), Some(&[][..]));
}

#[test]
fn keys_do_not_disturb_one_another() {
    let mut memory = MemoryManager::new();
    assert_eq!(memory.write("a", &[1, 1]), Ok(()));
    assert_eq!(memory.write("b", &[2, 2, 2]), Ok(()));
    memory.allocate("c", 1);
    assert_eq!(memory.write("a", &[9]), Ok(()));
    memory.allocate("b", 2);
    assert_eq!(memory.read("a"), Some(&[9u8, 1][..]));
    assert_eq!(memory.read("b"), Some(&[0u8, 0][..]));
    assert_eq!(memory.read("c"), Some(&[0u8][..]));
    assert_eq!(memory.read(""), None);
}

#[test]
fn the_empty_key_is_a_key_like_any_other() {
    let mut memory = MemoryManager::new();
    assert_eq!(memory.write("", &[3]), Ok(()));
    assert_eq!(memory.read(""), Some(&[3u8][..]));
}

#[test]
fn default_manager_is_empty() {
    let memory = MemoryManager::default();
    assert_eq!(memory.read("k"), None);
    assert_eq!(memory.read_protected("k"), None);
}

#[test]
fn region_allocate_read_write() {
    let mut region = MemoryRegion::new();
    assert_eq!(region.read("k"), None);
    assert_eq!(region.allocate("k", 2), &mut [0u8, 0][..]);
    assert_eq!(region.write("k", &[1]), Ok(()));
    assert_eq!(region.read("k"), Some(&[1u8, 0][..]));
    assert_eq!(region.write("k", &[1, 2, 3]), Err("Buffer too small: k".to_string()));
    assert_eq!(region.read("k"), Some(&[1u8, 0][..]));
    assert_eq!(region.write("other", &[8, 9]), Ok(()));
    assert_eq!(region.read("other"), Some(&[8u8, 9][..]));
}

#[test]
fn protected_allocate_then_read_gives_zero_bytes() {
    let memory = MemoryManager::new();
    memory.allocate_protected("state", 3);
    assert_eq!(memory.read_protected("state"), Some(vec![0, 0, 0]));
}

#[test]
fn protected_write_mirrors_shared_write() {
    let memory = MemoryManager::new();
    assert_eq!(memory.read_protected("state"), None);
    assert_eq!(memory.write_protected("state", &[1, 2, 3]), Ok(()));
    assert_eq!(memory.write_protected("state", &[9]), Ok(()));
    assert_eq!(memory.read_protected("state"), Some(vec![9, 2, 3]));
    assert_eq!(
        memory.write_protected("state", &[1, 2, 3, 4]),
        Err("Buffer too small: state".to_string())
    );
    assert_eq!(memory.read_protected("state"), Some(vec![9, 2, 3]));
    assert_eq!(memory.write_protected("state", &[]), Ok(()));
    assert_eq!(memory.read_protected("state"), Some(vec![9, 2, 3]));
}

#[test]
fn the_lock_is_free_again_after_a_failed_protected_write() {
    let memory = MemoryManager::new();
    memory.allocate_protected("state", 1);
    assert!(memory.write_protected("state", &[1, 2]).is_err());
    assert_eq!(memory.write_protected("state", &[5]), Ok(()));
    assert_eq!(memory.read_protected("state"), Some(vec![5]));
}

#[test]
fn shared_and_protected_memory_are_separate() {
    let mut memory = MemoryManager::new();
    assert_eq!(memory.write("k", &[1]), Ok(()));
    assert_eq!(memory.read_protected("k"), None);
    assert_eq!(memory.write_protected("k", &[2, 2]), Ok(()));
    assert_eq!(memory.read("k"), Some(&[1u8][..]));
    assert_eq!(memory.read_protected("k"), Some(vec![2, 2]));
}
