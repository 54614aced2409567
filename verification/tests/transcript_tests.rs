use plonky::field::GL_P;
use plonky::transcript::TranscriptGL;

fn batches() -> Vec<Vec<u64>> {
    vec![vec![1, 2, 3], vec![4, 5, 6, 7, 8, 9], vec![10]]
}

#[test]
fn transcript_determinism_squeezes() {
    let mut t1 = TranscriptGL::new();
    let mut t2 = TranscriptGL::new();
    t1.put(&batches()).unwrap();
    t2.put(&batches()).unwrap();
    for _ in 0..30 {
        assert_eq!(t1.get_fields1().unwrap(), t2.get_fields1().unwrap());
    }
    let p1 = t1.get_permutations(16, 9).unwrap();
    let p2 = t2.get_permutations(16, 9).unwrap();
    assert_eq!(p1, p2);
}

#[test]
fn transcript_determinism_challenges() {
    let mut t1 = TranscriptGL::new();
    let mut t2 = TranscriptGL::new();
    t1.put(&batches()).unwrap();
    t2.put(&batches()).unwrap();
    assert_eq!(t1.get_field(), t2.get_field());
    assert_eq!(t1.get_field(), t2.get_field());
}

#[test]
fn challenge_is_three_consecutive_squeezes() {
    let mut t1 = TranscriptGL::new();
    let mut t2 = TranscriptGL::new();
    t1.put(&batches()).unwrap();
    t2.put(&batches()).unwrap();
    let f = t1.get_field();
    assert_eq!(f.c0, t2.get_fields1().unwrap());
    assert_eq!(f.c1, t2.get_fields1().unwrap());
    assert_eq!(f.c2, t2.get_fields1().unwrap());
}

#[test]
fn transcript_sensitivity() {
    let base = batches();
    let mut reference = TranscriptGL::new();
    reference.put(&base).unwrap();
    let first = reference.get_fields1().unwrap();
    // perturb each absorbed element in turn; the first squeeze must move
    for i in 0..base.len() {
        for j in 0..base[i].len() {
            let mut changed = base.clone();
            changed[i][j] += 1;
            let mut t = TranscriptGL::new();
            t.put(&changed).unwrap();
            assert_ne!(first, t.get_fields1().unwrap(), "batch {i} element {j}");
        }
    }
}

#[test]
fn squeezed_elements_are_reduced() {
    let mut t = TranscriptGL::new();
    t.put(&batches()).unwrap();
    for _ in 0..50 {
        assert!(t.get_fields1().unwrap() < GL_P);
    }
}

#[test]
fn index_permutation_bounds() {
    for &(n, nbits) in &[(1usize, 1usize), (1, 62), (5, 3), (16, 9), (100, 31), (33, 62)] {
        let mut t = TranscriptGL::new();
        t.put(&batches()).unwrap();
        let perm = t.get_permutations(n, nbits).unwrap();
        assert_eq!(perm.len(), n, "n {n} nbits {nbits}");
        for &v in &perm {
            assert!(v < (1u64 << nbits), "n {n} nbits {nbits} value {v}");
        }
    }
}

#[test]
fn absorbing_invalidates_buffered_output() {
    // squeeze, absorb, squeeze: the absorb discards the old output buffer,
    // so the next squeeze comes from a fresh permutation over the new input
    let mut t1 = TranscriptGL::new();
    t1.put(&vec![vec![1, 2]]).unwrap();
    let _ = t1.get_fields1().unwrap();
    t1.put(&vec![vec![3]]).unwrap();
    let after = t1.get_fields1().unwrap();

    let mut t2 = TranscriptGL::new();
    t2.put(&vec![vec![1, 2]]).unwrap();
    let _ = t2.get_fields1().unwrap();
    t2.put(&vec![vec![3]]).unwrap();
    assert_eq!(after, t2.get_fields1().unwrap());
}

#[test]
fn full_pending_buffer_flushes() {
    // an 8-element batch fires an absorb cycle by itself; the result is the
    // same whether the elements arrive in one batch or split across two
    let mut t1 = TranscriptGL::new();
    t1.put(&vec![vec![1, 2, 3, 4, 5, 6, 7, 8]]).unwrap();
    let mut t2 = TranscriptGL::new();
    t2.put(&vec![vec![1, 2, 3], vec![4, 5, 6, 7, 8]]).unwrap();
    assert_eq!(t1.get_fields1().unwrap(), t2.get_fields1().unwrap());
}

#[test]
fn index_permutation_matches_bit_decomposition() {
    // recompute the indices by hand from the squeezed elements of a twin
    // transcript: n * nbits bits are read least-significant-bit-first across
    // 63-bit windows, one window per squeezed element
    let (n, nbits) = (7usize, 11usize);
    let mut twin = TranscriptGL::new();
    twin.put(&batches()).unwrap();
    let n_fields = (n * nbits - 1) / 63 + 1;
    let fields: Vec<u64> = (0..n_fields).map(|_| twin.get_fields1().unwrap()).collect();

    let mut t = TranscriptGL::new();
    t.put(&batches()).unwrap();
    let perm = t.get_permutations(n, nbits).unwrap();

    let mut cur = 0usize;
    for i in 0..n {
        let mut expected = 0u64;
        for j in 0..nbits {
            let bit = (fields[cur / 63] >> (cur % 63)) & 1;
            expected += bit << j;
            cur += 1;
        }
        assert_eq!(perm[i], expected, "index {i}");
    }
}

#[test]
fn put_is_elementwise_absorption() {
    // absorbing batch by batch through put equals absorbing element by
    // element through add_1, with the flush at 8 firing in the same places
    let mut t1 = TranscriptGL::new();
    t1.put(&batches()).unwrap();
    let mut t2 = TranscriptGL::new();
    for batch in batches() {
        for e in batch {
            t2.add_1(&e).unwrap();
        }
    }
    assert_eq!(t1.get_fields1().unwrap(), t2.get_fields1().unwrap());
}

#[test]
fn update_state_refills_output() {
    // a forced absorb cycle refills the output buffer with 12 reduced lanes
    let mut t = TranscriptGL::new();
    t.add_1(&7).unwrap();
    t.update_state().unwrap();
    for _ in 0..12 {
        assert!(t.get_fields1().unwrap() < GL_P);
    }
}
