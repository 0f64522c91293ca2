use vstd::prelude::*;

verus! {

/// The optimization level that the compiler session asks for.
#[derive(Clone, Copy, Debug, PartialEq, Eq, Structural)]
pub enum OptLevel {
    /// `-O0`
    No,
    /// `-O1`
    Less,
    /// `-O2`
    Default,
    /// `-O3`
    Aggressive,
    /// `-Os`
    Size,
    /// `-Oz`
    SizeMin,
}

/// The optimization levels that libgccjit offers, in increasing order.
#[derive(Clone, Copy, Debug, PartialEq, Eq, Structural)]
pub enum OptimizationLevel {
    /// No optimizations are applied.
    Disabled,
    /// Optimizes for both speed and code size, without the slow passes.
    Limited,
    /// Every optimization that does not trade code size for speed.
    Standard,
    /// Standard plus inlining, vectorization and unrolling.
    Aggressive,
}

/// The GCC level that a requested level is compiled with. No request means
/// no optimization, and both size-oriented levels use the limited level.
pub open spec fn gcc_opt_level(level: Option<OptLevel>) -> OptimizationLevel {
    match level {
        None => OptimizationLevel::Disabled,
        Some(OptLevel::No) => OptimizationLevel::Disabled,
        Some(OptLevel::Less) => OptimizationLevel::Limited,
        Some(OptLevel::Default) => OptimizationLevel::Standard,
        Some(OptLevel::Aggressive) => OptimizationLevel::Aggressive,
        Some(OptLevel::Size) => OptimizationLevel::Limited,
        Some(OptLevel::SizeMin) => OptimizationLevel::Limited,
    }
}

/// The position of a GCC level in the order `Disabled < Limited < Standard < Aggressive`.
pub open spec fn gcc_rank(level: OptimizationLevel) -> int {
    match level {
        OptimizationLevel::Disabled => 0,
        OptimizationLevel::Limited => 1,
        OptimizationLevel::Standard => 2,
        OptimizationLevel::Aggressive => 3,
    }
}

/// Whether a requested level asks for small code rather than fast code.
pub open spec fn is_size_level(level: OptLevel) -> bool {
    level is Size || level is SizeMin
}

/// The position of a level in the order `No < Less < Default < Aggressive`;
/// the size-oriented levels stand with `Less`, the level they compile as.
pub open spec fn speed_rank(level: OptLevel) -> int {
    match level {
        OptLevel::No => 0,
        OptLevel::Less => 1,
        OptLevel::Default => 2,
        OptLevel::Aggressive => 3,
        OptLevel::Size => 1,
        OptLevel::SizeMin => 1,
    }
}

/// Chooses the libgccjit optimization level for the level the session asks for.
pub fn to_gcc_opt_level(optlevel: Option<OptLevel>) -> (r: OptimizationLevel)
    ensures
        r == gcc_opt_level(optlevel),
{
    match optlevel {
        None => OptimizationLevel::Disabled,
        Some(level) => {
            match level {
                OptLevel::No => OptimizationLevel::Disabled,
                OptLevel::Less => OptimizationLevel::Limited,
                OptLevel::Default => OptimizationLevel::Standard,
                OptLevel::Aggressive => OptimizationLevel::Aggressive,
                OptLevel::Size | OptLevel::SizeMin => OptimizationLevel::Limited,
            }
        },
    }
}

/// Asking for no level at all compiles exactly as asking for `-O0`.
pub proof fn absent_level_is_no_optimization()
    ensures
        gcc_opt_level(None) == gcc_opt_level(Some(OptLevel::No)),
        gcc_opt_level(None) == OptimizationLevel::Disabled,
{
}

/// Among the speed-oriented levels, the GCC level follows the requested
/// level exactly: a higher request never gives a lower GCC level, and
/// different requests give different GCC levels.
pub proof fn speed_levels_keep_their_order(a: OptLevel, b: OptLevel)
    requires
        !is_size_level(a),
        !is_size_level(b),
    ensures
        speed_rank(a) <= speed_rank(b) <==> gcc_rank(gcc_opt_level(Some(a))) <= gcc_rank(
            gcc_opt_level(Some(b)),
        ),
        a != b ==> gcc_opt_level(Some(a)) != gcc_opt_level(Some(b)),
{
}

/// A size-oriented level never optimizes more than the limited GCC level,
/// and never turns optimization off.
pub proof fn size_levels_stay_limited(a: OptLevel)
    requires
        is_size_level(a),
    ensures
        gcc_opt_level(Some(a)) == OptimizationLevel::Limited,
{
}

} // verus!
