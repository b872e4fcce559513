use fourier::transform::phase_index;

#[test]
fn phase_index_small_values() {
    assert_eq!(phase_index(0, 5, 8), 0);
    assert_eq!(phase_index(3, 5, 8), 7);
    assert_eq!(phase_index(7, 7, 8), 1);
    assert_eq!(phase_index(2, 4, 8), 0);
}

#[test]
fn phase_index_length_one() {
    assert_eq!(phase_index(123, 456, 1), 0);
}

#[test]
fn phase_index_is_symmetric() {
    for t in 0..10usize {
        for x in 0..10usize {
            assert_eq!(phase_index(t, x, 7), phase_index(x, t, 7));
        }
    }
}

#[test]
fn phase_index_without_overflow() {
    let n = usize::MAX;
    assert_eq!(phase_index(usize::MAX - 1, usize::MAX - 1, n), 1);
    assert_eq!(phase_index(1usize << 40, 1usize << 40, 1000), ((1u128 << 80) % 1000) as usize);
}
