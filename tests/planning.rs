use yad::planner::{plan_chunks, PlanError, CHUNK_SIZE};

#[test]
fn ten_mebibytes_make_ten_chunks() {
    let plan = plan_chunks(10_485_760, 1_048_576).unwrap();
    assert_eq!(plan.len(), 10);
    assert_eq!(plan[0], (0, 1_048_575));
    assert_eq!(plan[9], (9_437_184, 10_485_759));
}

#[test]
fn small_file_is_one_chunk() {
    let plan = plan_chunks(500, 1_048_576).unwrap();
    assert_eq!(plan, vec![(0, 499)]);
}

#[test]
fn empty_resource_has_no_chunks() {
    assert_eq!(plan_chunks(0, CHUNK_SIZE).unwrap(), Vec::<(u64, u64)>::new());
}

#[test]
fn zero_chunk_size_is_a_config_error() {
    assert_eq!(plan_chunks(100, 0), Err(PlanError::ConfigError));
    assert_eq!(plan_chunks(0, 0), Err(PlanError::ConfigError));
}

#[test]
fn short_last_chunk_ends_at_last_byte() {
    let plan = plan_chunks(10, 3).unwrap();
    assert_eq!(plan, vec![(0, 2), (3, 5), (6, 8), (9, 9)]);
}

#[test]
fn exact_multiple_has_full_last_chunk() {
    let plan = plan_chunks(9, 3).unwrap();
    assert_eq!(plan, vec![(0, 2), (3, 5), (6, 8)]);
}

#[test]
fn plan_is_contiguous_and_covers_everything() {
    for (total, size) in [(1u64, 1u64), (7, 2), (1000, 7), (4096, 4096), (4097, 4096)] {
        let plan = plan_chunks(total, size).unwrap();
        assert_eq!(plan[0].0, 0);
        assert_eq!(plan[plan.len() - 1].1, total - 1);
        for w in plan.windows(2) {
            assert!(w[0].0 <= w[0].1);
            assert_eq!(w[0].1 + 1, w[1].0);
        }
        let covered: u64 = plan.iter().map(|(s, e)| e - s + 1).sum();
        assert_eq!(covered, total);
    }
}

#[test]
fn planning_twice_gives_the_same_ranges() {
    assert_eq!(plan_chunks(123_456_789, 65_536), plan_chunks(123_456_789, 65_536));
}

#[test]
fn largest_sizes_do_not_overflow() {
    assert_eq!(plan_chunks(u64::MAX, u64::MAX).unwrap(), vec![(0, u64::MAX - 1)]);
    let plan = plan_chunks(u64::MAX, 1 << 62).unwrap();
    assert_eq!(plan.len(), 4);
    assert_eq!(plan[3], (3 << 62, u64::MAX - 1));
}

#[test]
fn chunk_size_is_one_mebibyte() {
    assert_eq!(CHUNK_SIZE, 1024 * 1024);
}

#[test]
fn disjoint_writes_in_any_order_rebuild_the_resource() {
    let source: Vec<u8> = (0..5000u32).map(|i| (i * 31 % 251) as u8).collect();
    let plan = plan_chunks(source.len() as u64, 512).unwrap();
    let mut target = vec![0u8; source.len()];
    for (start, end) in plan.iter().rev() {
        let (s, e) = (*start as usize, *end as usize);
        target[s..=e].copy_from_slice(&source[s..=e]);
    }
    let sum = |b: &[u8]| b.iter().fold(0u64, |acc, x| acc.wrapping_mul(131).wrapping_add(*x as u64));
    assert_eq!(sum(&target), sum(&source));
    assert_eq!(target, source);
}
