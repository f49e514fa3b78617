//! Composite flags: up to three small options packed into one integer by
//! positional base-10 weighting.
use vstd::prelude::*;

verus! {

/// The largest value that one option of a composite flag may take.
pub const MAX_OPTION: i32 = 4;

pub open spec fn option_in_range(o: int) -> bool {
    0 <= o <= MAX_OPTION
}

pub open spec fn flag_value(opt0: int, opt1: int, opt2: int) -> int {
    opt0 + 10 * opt1 + 100 * opt2
}

pub open spec fn flag_options(flag: int) -> (int, int, int) {
    (flag % 10, (flag / 10) % 10, flag / 100)
}

/// Packs three options into `opt0 + 10 * opt1 + 100 * opt2`.
pub fn encode_flag(opt0: i32, opt1: i32, opt2: i32) -> (r: i32)
    requires
        option_in_range(opt0 as int),
        option_in_range(opt1 as int),
        option_in_range(opt2 as int),
    ensures
        r == flag_value(opt0 as int, opt1 as int, opt2 as int),
{
    opt0 + 10 * opt1 + 100 * opt2
}

/// Reads the three options back out of a composite flag.
pub fn decode_flag(flag: i32) -> (r: (i32, i32, i32))
    requires
        flag >= 0,
    ensures
        (r.0 as int, r.1 as int, r.2 as int) == flag_options(flag as int),
{
    (flag % 10, (flag / 10) % 10, flag / 100)
}

/// Decoding a flag built from options in range gives back those options.
pub proof fn lemma_flag_round_trip(opt0: int, opt1: int, opt2: int)
    requires
        option_in_range(opt0),
        option_in_range(opt1),
        option_in_range(opt2),
    ensures
        flag_options(flag_value(opt0, opt1, opt2)) == (opt0, opt1, opt2),
{
    let f = flag_value(opt0, opt1, opt2);
    assert(f % 10 == opt0 && f / 10 == opt1 + 10 * opt2) by (nonlinear_arith)
        requires
            f == opt0 + 10 * opt1 + 100 * opt2,
            0 <= opt0 <= 4,
            0 <= opt1 <= 4,
            0 <= opt2 <= 4,
    ;
    assert((f / 10) % 10 == opt1 && f / 100 == opt2) by (nonlinear_arith)
        requires
            f / 10 == opt1 + 10 * opt2,
            0 <= f,
            0 <= opt1 <= 4,
            0 <= opt2 <= 4,
    ;
}

/// Distinct triples of options in range give distinct flags.
pub proof fn lemma_flag_injective(a0: int, a1: int, a2: int, b0: int, b1: int, b2: int)
    requires
        option_in_range(a0),
        option_in_range(a1),
        option_in_range(a2),
        option_in_range(b0),
        option_in_range(b1),
        option_in_range(b2),
        (a0, a1, a2) != (b0, b1, b2),
    ensures
        flag_value(a0, a1, a2) != flag_value(b0, b1, b2),
{
    lemma_flag_round_trip(a0, a1, a2);
    lemma_flag_round_trip(b0, b1, b2);
}

} // verus!
