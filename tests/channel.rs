use spectral_workbench::channel::AudioRingBuffer;

fn bits(samples: &[f64]) -> Vec<u64> {
    samples.iter().map(|s| s.to_bits()).collect()
}

fn values(raw: &[u64]) -> Vec<f64> {
    raw.iter().map(|b| f64::from_bits(*b)).collect()
}

#[test]
fn test_ring_buffer_write_read() {
    let mut rb = AudioRingBuffer::new(1024);

    let data = vec![1.0, 2.0, 3.0, 4.0, 5.0];
    let written = rb.write(&bits(&data));
    assert_eq!(written, 5);

    let mut output = vec![0u64; 5];
    let read = rb.read(&mut output);
    assert_eq!(read, 5);
    assert_eq!(values(&output), data);
}

#[test]
fn test_ring_buffer_overflow() {
    let mut rb = AudioRingBuffer::new(10);

    let data = vec![1.0; 20];
    let written = rb.write(&bits(&data));
    assert!(written <= 10);

    let mut output = vec![0u64; 20];
    let read = rb.read(&mut output);
    assert_eq!(read, written);
}

#[test]
fn test_ring_buffer_underflow() {
    let mut rb = AudioRingBuffer::new(1024);

    let mut output = vec![0u64; 10];
    let read = rb.read(&mut output);
    assert_eq!(read, 0);
}

#[test]
fn channel_partial_write_keeps_front_and_counts() {
    let mut rb = AudioRingBuffer::new(4);
    assert_eq!(rb.capacity(), 4);
    assert!(rb.is_empty());
    assert!(rb.has_space(4));
    assert!(!rb.has_space(5));
    assert_eq!(rb.write(&[10, 11, 12, 13, 14, 15]), 4);
    assert_eq!(rb.len(), 4);
    assert_eq!(rb.free_len(), 0);
    assert!(rb.has_data(4));
    assert!(!rb.has_data(5));
    assert_eq!(rb.write(&[99]), 0);
    let mut out = vec![7u64; 6];
    assert_eq!(rb.read(&mut out), 4);
    assert_eq!(out, vec![10, 11, 12, 13, 7, 7]);
}

#[test]
fn channel_wraps_around_in_order() {
    let mut rb = AudioRingBuffer::new(3);
    assert_eq!(rb.write(&[1, 2]), 2);
    let mut one = vec![0u64; 1];
    assert_eq!(rb.read(&mut one), 1);
    assert_eq!(one, vec![1]);
    assert_eq!(rb.write(&[3, 4, 5]), 2);
    assert_eq!(rb.len(), 3);
    let mut out = vec![0u64; 2];
    assert_eq!(rb.read(&mut out), 2);
    assert_eq!(out, vec![2, 3]);
    assert_eq!(rb.read(&mut out), 1);
    assert_eq!(out, vec![4, 3]);
    assert!(rb.is_empty());
}

#[test]
fn channel_never_reads_more_than_written() {
    let mut rb = AudioRingBuffer::new(5);
    let mut written = 0usize;
    let mut read = 0usize;
    let mut buf = vec![0u64; 4];
    for step in 0..50u64 {
        let chunk: Vec<u64> = (0..(step % 7)).collect();
        written += rb.write(&chunk);
        assert!(written - read <= 5);
        if step % 3 != 0 {
            read += rb.read(&mut buf);
        }
        assert!(read <= written);
        assert_eq!(rb.len(), written - read);
    }
}
