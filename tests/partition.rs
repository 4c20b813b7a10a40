use hashbench::partition::{partition_plan, unit_range, UnitRange, MAX_CANDIDATE};

#[test]
fn single_unit_owns_whole_space() {
    let r = unit_range(1, 0);
    assert_eq!(r, UnitRange { start: 0, width: u64::MAX });
}

#[test]
fn shares_of_four_units() {
    let w = u64::MAX / 4;
    assert_eq!(w, 4611686018427387903);
    assert_eq!(unit_range(4, 0).start, 0);
    assert_eq!(unit_range(4, 1).start, w);
    assert_eq!(unit_range(4, 3).start, w * 3);
    assert_eq!(unit_range(4, 3).width, w);
}

#[test]
fn plan_is_disjoint_with_small_remainder() {
    for t in [1u64, 2, 3, 7, 10, 64] {
        let plan = partition_plan(t);
        assert_eq!(plan.len() as u64, t);
        for k in 0..plan.len() {
            assert_eq!(plan[k].width, MAX_CANDIDATE / t);
            if k + 1 < plan.len() {
                assert!(plan[k].start + plan[k].width <= plan[k + 1].start);
            }
        }
        let last = plan[plan.len() - 1];
        let end = last.start + last.width;
        assert!(MAX_CANDIDATE - end < t);
    }
}

#[test]
fn three_units_leave_remainder_unassigned() {
    let plan = partition_plan(3);
    assert_eq!(plan[0], UnitRange { start: 0, width: 6148914691236517205 });
    assert_eq!(plan[1].start, 6148914691236517205);
    assert_eq!(plan[2].start, 12297829382473034410);
    assert_eq!(plan[2].start + plan[2].width, u64::MAX);
}
