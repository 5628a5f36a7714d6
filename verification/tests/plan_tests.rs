use aliyundrive::plan::{part_count, PartDescriptor, TransferPlan, DOWNLOAD_PART_SIZE, UPLOAD_PART_SIZE};

const MIB: u64 = 1024 * 1024;

fn ranges(plan: &TransferPlan) -> Vec<(u32, u64, u64)> {
    plan.parts.iter().map(|p: &PartDescriptor| (p.index, p.start, p.end_inclusive)).collect()
}

#[test]
fn default_part_sizes() {
    assert_eq!(DOWNLOAD_PART_SIZE, 8_388_608);
    assert_eq!(UPLOAD_PART_SIZE, 524_288_000);
}

#[test]
fn part_count_rounds_up() {
    assert_eq!(part_count(20 * MIB, 8 * MIB), 3);
    assert_eq!(part_count(16 * MIB, 8 * MIB), 2);
    assert_eq!(part_count(16 * MIB + 1, 8 * MIB), 3);
    assert_eq!(part_count(1, 8 * MIB), 1);
    assert_eq!(part_count(20 * MIB, 100 * MIB), 1);
}

#[test]
fn part_count_of_nothing_is_zero() {
    assert_eq!(part_count(0, 8 * MIB), 0);
    assert_eq!(part_count(10, 0), 0);
}

#[test]
fn part_count_at_the_limits() {
    assert_eq!(part_count(u64::MAX, 1), u64::MAX);
    assert_eq!(part_count(u64::MAX, u64::MAX), 1);
    assert_eq!(part_count(u64::MAX, 2), 1u64 << 63);
}

#[test]
fn twenty_mib_in_eight_mib_chunks() {
    let plan = TransferPlan::new(20 * MIB, 0, 8 * MIB).unwrap();
    assert_eq!(plan.total_size, 20 * MIB);
    assert_eq!(plan.part_size, 8 * MIB);
    assert_eq!(plan.start_offset, 0);
    assert_eq!(
        ranges(&plan),
        vec![
            (1, 0, 8 * MIB - 1),
            (2, 8 * MIB, 16 * MIB - 1),
            (3, 16 * MIB, 20 * MIB - 1),
        ]
    );
    let lens: Vec<u64> = plan.parts.iter().map(|p| p.len()).collect();
    assert_eq!(lens, vec![8 * MIB, 8 * MIB, 4 * MIB]);
    assert!(plan.parts.iter().all(|p| p.upload_target.is_none()));
}

#[test]
fn twenty_mib_in_one_upload_part() {
    let plan = TransferPlan::new(20 * MIB, 0, 100 * MIB).unwrap();
    assert_eq!(ranges(&plan), vec![(1, 0, 20 * MIB - 1)]);
    assert_eq!(plan.part_total(), 1);
}

#[test]
fn exact_multiple_has_no_short_part() {
    let plan = TransferPlan::new(30, 0, 10).unwrap();
    assert_eq!(ranges(&plan), vec![(1, 0, 9), (2, 10, 19), (3, 20, 29)]);
}

#[test]
fn parts_tile_the_range() {
    for total in 0u64..60 {
        for size in 1u64..12 {
            for offset in 0u64..=total {
                let plan = TransferPlan::new(total, offset, size).unwrap();
                let mut next = offset;
                for (k, p) in plan.parts.iter().enumerate() {
                    assert_eq!(p.index as usize, k + 1);
                    assert_eq!(p.start, next);
                    assert!(p.start <= p.end_inclusive);
                    if k + 1 < plan.parts.len() {
                        assert_eq!(p.len(), size);
                    } else {
                        assert!(p.len() <= size);
                        assert_eq!(p.end_inclusive, total - 1);
                    }
                    next = p.end_inclusive + 1;
                }
                assert_eq!(next, total);
                assert_eq!(plan.parts.len() as u64, part_count(total - offset, size));
            }
        }
    }
}

#[test]
fn resumed_plan_covers_the_rest_only() {
    let plan = TransferPlan::new(20 * MIB, 5 * MIB, 8 * MIB).unwrap();
    assert_eq!(plan.start_offset, 5 * MIB);
    assert_eq!(
        ranges(&plan),
        vec![(1, 5 * MIB, 13 * MIB - 1), (2, 13 * MIB, 20 * MIB - 1)]
    );
}

#[test]
fn nothing_left_gives_no_parts() {
    let plan = TransferPlan::new(20 * MIB, 20 * MIB, 8 * MIB).unwrap();
    assert!(plan.parts.is_empty());
    assert_eq!(plan.start_offset, 20 * MIB);
}

#[test]
fn offset_beyond_the_end_is_cut_back() {
    let plan = TransferPlan::new(100, 250, 8).unwrap();
    assert!(plan.parts.is_empty());
    assert_eq!(plan.start_offset, 100);
}

#[test]
fn empty_file_gives_no_parts() {
    let plan = TransferPlan::new(0, 0, 8 * MIB).unwrap();
    assert!(plan.parts.is_empty());
}

#[test]
fn zero_part_size_has_no_plan() {
    assert!(TransferPlan::new(100, 0, 0).is_none());
    assert!(TransferPlan::new(0, 0, 0).is_none());
}

#[test]
fn too_many_parts_have_no_plan() {
    assert!(TransferPlan::new(u64::MAX, 0, 1).is_none());
    assert!(TransferPlan::new((u32::MAX as u64) + 1, 0, 1).is_none());
}
