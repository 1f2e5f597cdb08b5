use yazz::ringbuffer::Ringbuffer;

#[test]
fn test_ringbuff() {
    let mut buffer = [0.0; 4];
    let mut rb = Ringbuffer::new();
    rb.init(&mut buffer);

    rb.add(&mut buffer, 1.0);
    rb.add(&mut buffer, 2.0);
    rb.add(&mut buffer, 3.0);
    rb.add(&mut buffer, 4.0);

    assert_eq!(rb.get(&mut buffer, 0), 4.0);
    assert_eq!(rb.get(&mut buffer, 1), 3.0);
    assert_eq!(rb.get(&mut buffer, 2), 2.0);
    assert_eq!(rb.get(&mut buffer, 3), 1.0);
    assert_eq!(rb.get(&mut buffer, 4), 4.0);

    rb.add(&mut buffer, 5.0);
    assert_eq!(rb.get(&mut buffer, 0), 5.0);
    assert_eq!(rb.get(&mut buffer, 1), 4.0);
    assert_eq!(rb.get(&mut buffer, 2), 3.0);
    assert_eq!(rb.get(&mut buffer, 3), 2.0);
}

#[test]
fn init_fills_with_default() {
    let mut buffer = [7u32; 5];
    let mut rb = Ringbuffer::new();
    rb.init(&mut buffer);
    assert_eq!(buffer, [0u32; 5]);
}

#[test]
fn first_add_writes_second_slot() {
    let mut buffer = [0i32; 3];
    let mut rb = Ringbuffer::new();
    rb.add(&mut buffer, 9);
    assert_eq!(buffer, [0, 9, 0]);
    rb.add(&mut buffer, 8);
    rb.add(&mut buffer, 7);
    assert_eq!(buffer, [7, 9, 8]);
}

#[test]
fn read_back_after_add_law() {
    // The value just added is at age 0, the one before at age 1, for any
    // number of adds, including wrap-arounds.
    let mut buffer = [0u64; 3];
    let mut rb = Ringbuffer::new();
    for v in 1..20u64 {
        rb.add(&mut buffer, v);
        assert_eq!(rb.get(&buffer, 0), v);
        if v > 1 {
            assert_eq!(rb.get(&buffer, 1), v - 1);
        }
    }
}

#[test]
fn large_ages_wrap_around() {
    let mut buffer = [0u8; 4];
    let mut rb = Ringbuffer::new();
    for v in 1..=4u8 {
        rb.add(&mut buffer, v);
    }
    assert_eq!(rb.get(&buffer, 5), 3);
    assert_eq!(rb.get(&buffer, 8), 4);
    assert_eq!(rb.get(&buffer, 11), 1);
}

#[test]
fn read_back_after_many_adds() {
    // After k adds, age i (modulo the length) gives the value added i adds
    // before the newest one, for every age below k.
    let n = 5usize;
    let mut buffer = [0u32; 5];
    let mut rb = Ringbuffer::new();
    for k in 1..=12u32 {
        rb.add(&mut buffer, k * 10);
        for age in 0..(3 * n) {
            if (age % n) < k as usize {
                assert_eq!(rb.get(&buffer, age), (k - (age % n) as u32) * 10);
            }
        }
    }
}
