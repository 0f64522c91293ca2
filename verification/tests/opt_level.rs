use rustc_codegen_gcc::{to_gcc_opt_level, OptLevel, OptimizationLevel};

#[test]
fn each_requested_level_has_its_gcc_level() {
    assert_eq!(to_gcc_opt_level(None), OptimizationLevel::Disabled);
    assert_eq!(to_gcc_opt_level(Some(OptLevel::No)), OptimizationLevel::Disabled);
    assert_eq!(to_gcc_opt_level(Some(OptLevel::Less)), OptimizationLevel::Limited);
    assert_eq!(to_gcc_opt_level(Some(OptLevel::Default)), OptimizationLevel::Standard);
    assert_eq!(to_gcc_opt_level(Some(OptLevel::Aggressive)), OptimizationLevel::Aggressive);
    assert_eq!(to_gcc_opt_level(Some(OptLevel::Size)), OptimizationLevel::Limited);
    assert_eq!(to_gcc_opt_level(Some(OptLevel::SizeMin)), OptimizationLevel::Limited);
}

fn rank(level: OptimizationLevel) -> u8 {
    match level {
        OptimizationLevel::Disabled => 0,
        OptimizationLevel::Limited => 1,
        OptimizationLevel::Standard => 2,
        OptimizationLevel::Aggressive => 3,
    }
}

#[test]
fn speed_levels_keep_their_order_on_examples() {
    let speed = [OptLevel::No, OptLevel::Less, OptLevel::Default, OptLevel::Aggressive];
    for (i, a) in speed.iter().enumerate() {
        for (j, b) in speed.iter().enumerate() {
            let ra = rank(to_gcc_opt_level(Some(*a)));
            let rb = rank(to_gcc_opt_level(Some(*b)));
            assert_eq!(i <= j, ra <= rb);
        }
    }
}

#[test]
fn absent_level_is_no_optimization_on_example() {
    assert_eq!(to_gcc_opt_level(None), to_gcc_opt_level(Some(OptLevel::No)));
}
