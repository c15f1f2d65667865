use stack85::memory;

#[test]
fn fresh_memory_is_zeroed() {
    let m = memory::new(memory::MEM_SIZE);
    assert_eq!(m.size(), memory::MEM_SIZE as usize);
    assert_eq!(m.public_read(0), 0);
    assert_eq!(m.public_read(memory::MEM_SIZE - 1), 0);
}

#[test]
fn latched_write_then_read() {
    let mut m = memory::new(256);
    m.set_addr(17);
    m.write(0xAB);
    assert_eq!(m.read(), 0xAB);
    m.set_addr(16);
    assert_eq!(m.read(), 0);
}

#[test]
fn public_write_is_visible() {
    let mut m = memory::new(256);
    m.public_write(0x5A, 200);
    assert_eq!(m.public_read(200), 0x5A);
    m.set_addr(200);
    assert_eq!(m.read(), 0x5A);
}

#[test]
fn load_image_replaces_contents() {
    let mut m = memory::new(4);
    m.load_image(vec![1, 2, 3]);
    assert_eq!(m.size(), 3);
    assert_eq!(m.public_read(0), 1);
    assert_eq!(m.public_read(2), 3);
}
