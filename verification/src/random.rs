//! Random-number utilities: a xorshift generator behind a uniform-range
//! query, and the dice arithmetic built on it.

use crate::parsing::{
    dice_bonus, dice_count, dice_fits, dice_sides, lemma_dice_values_nonneg, lemma_split_unique,
    parse_dice_string, valid_dice_at, DiceParseError,
};
use rand::{Rng, RngCore, SeedableRng};
use rand_xorshift::XorShiftRng;
use vstd::prelude::*;

verus! {

/// Whether a split dice expression can actually be rolled: at least one side
/// per die, and a largest possible total that fits a 32-bit value.
pub open spec fn dice_rollable(s: Seq<char>, i: int, j: int) -> bool {
    let n = dice_count(s, i);
    let die = dice_sides(s, i, j);
    let b = dice_bonus(s, j);
    &&& 1 <= die < i32::MAX
    &&& n * die <= i32::MAX
    &&& n * die + b <= i32::MAX
}

#[verifier::external_type_specification]
#[verifier::external_body]
pub struct ExXorShiftRng(XorShiftRng);

/// A dice expression: roll `n_dice` dice of `die_type` sides each and add
/// `bonus` to the total.
#[derive(Copy, Clone, PartialEq, Eq, Structural, Debug)]
pub struct DiceType {
    pub n_dice: i32,
    pub die_type: i32,
    pub bonus: i32,
}

impl DiceType {
    /// Makes a dice expression from its three parts.
    pub fn new(n_dice: i32, die_type: i32, bonus: i32) -> (d: DiceType)
        ensures
            d.n_dice == n_dice,
            d.die_type == die_type,
            d.bonus == bonus,
    {
        DiceType { n_dice, die_type, bonus }
    }
}

/// A pseudo-random number generator backed by a xorshift state.
pub struct RandomNumberGenerator {
    rng: XorShiftRng,
}

impl RandomNumberGenerator {
    /// Creates a new generator from a randomly generated seed.
    ///
    /// Relies on rand's `SeedableRng::from_entropy`: the state comes from the
    /// operating system's entropy source, so nothing is promised of it. The
    /// call aborts only if that source itself fails.
    #[verifier::external_body]
    pub fn new() -> RandomNumberGenerator {
        let rng: XorShiftRng = SeedableRng::from_entropy();
        RandomNumberGenerator { rng }
    }

    /// Creates a new generator from a specific seed.
    ///
    /// Relies on rand's `SeedableRng::seed_from_u64`, which always succeeds;
    /// which state it produces is not stated.
    #[verifier::external_body]
    pub fn seeded(seed: u64) -> RandomNumberGenerator {
        let rng: XorShiftRng = SeedableRng::seed_from_u64(seed);
        RandomNumberGenerator { rng }
    }

    /// A random value of whatever type the call site asks for.
    ///
    /// Relies on rand's `Rng::gen`; every value of the type may come back,
    /// so nothing is promised of it.
    #[verifier::external_body]
    pub fn rand<T>(&mut self) -> T where
        rand::distributions::Standard: rand::distributions::Distribution<T>,
     {
        self.rng.gen::<T>()
    }

    /// The generator's next unsigned 64-bit value.
    ///
    /// Relies on rand's `RngCore::next_u64`; every value may come back.
    #[verifier::external_body]
    pub fn next_u64(&mut self) -> u64 {
        self.rng.next_u64()
    }

    /// A uniformly random value in the given range: inclusive of `min`,
    /// exclusive of `max`, so `range(1, 6)` yields numbers from 1 to 5.
    ///
    /// Relies on rand's `Rng::gen_range`, which returns a value of `[min,
    /// max)` and panics when `min >= max`; that input is excluded here.
    #[verifier::external_body]
    pub fn range(&mut self, min: i32, max: i32) -> (r: i32)
        requires
            min < max,
        ensures
            min <= r < max,
    {
        self.rng.gen_range(min, max)
    }

    /// Rolls dice in the classic `3d6` style: `n` dice of `die_type` sides,
    /// summed. Zero or fewer dice roll zero; otherwise the total lies
    /// between the number of dice and the number of dice times the die size.
    pub fn roll_dice(&mut self, n: i32, die_type: i32) -> (r: i32)
        requires
            1 <= die_type,
            die_type < i32::MAX,
            n * die_type <= i32::MAX,
        ensures
            n <= 0 ==> r == 0,
            n >= 1 ==> n <= r <= n * die_type,
    {
        if n <= 0 {
            return 0;
        }
        let mut total: i32 = 0;
        let mut i: i32 = 0;
        while i < n
            invariant
                0 <= i <= n,
                1 <= die_type,
                die_type < i32::MAX,
                n * die_type <= i32::MAX,
                i <= total,
                total <= i * die_type,
            decreases n - i,
        {
            proof {
                assert((i + 1) * die_type <= n * die_type) by (nonlinear_arith)
                    requires
                        i + 1 <= n,
                        die_type >= 1,
                ;
                assert((i + 1) * die_type == i * die_type + die_type) by (nonlinear_arith);
            }
            let roll = self.range(1, die_type + 1);
            total = total + roll;
            i = i + 1;
        }
        total
    }

    /// Rolls a whole dice expression, applying its bonus to the total.
    pub fn roll(&mut self, dice: DiceType) -> (r: i32)
        requires
            1 <= dice.die_type,
            dice.die_type < i32::MAX,
            dice.n_dice * dice.die_type <= i32::MAX,
            dice.n_dice >= 1 ==> dice.n_dice * dice.die_type + dice.bonus <= i32::MAX,
        ensures
            dice.n_dice <= 0 ==> r == dice.bonus,
            dice.n_dice >= 1 ==> dice.n_dice + dice.bonus <= r <= dice.n_dice * dice.die_type
                + dice.bonus,
    {
        let rolled = self.roll_dice(dice.n_dice, dice.die_type);
        proof {
            assert(dice.n_dice >= 1 ==> dice.n_dice <= dice.n_dice * dice.die_type)
                by (nonlinear_arith)
                requires
                    dice.die_type >= 1,
            ;
        }
        rolled + dice.bonus
    }

    /// Rolls dice named by a string such as `3d6+1`. A string that is not a
    /// dice expression, or one the dice type cannot roll without
    /// overflowing, yields a parse error; otherwise the total obeys the
    /// bounds of `roll`.
    pub fn roll_str(&mut self, dice: &str) -> (r: Result<i32, DiceParseError>)
        ensures
            r is Ok <==> exists|i: int, j: int|
                #[trigger] valid_dice_at(dice@, i, j) && dice_fits(dice@, i, j) && dice_rollable(
                    dice@,
                    i,
                    j,
                ),
            forall|i: int, j: int|
                valid_dice_at(dice@, i, j) && dice_fits(dice@, i, j) && dice_rollable(dice@, i, j)
                    ==> r is Ok && (dice_count(dice@, i) == 0 ==> r->Ok_0 == dice_bonus(dice@, j))
                    && (dice_count(dice@, i) >= 1 ==> dice_count(dice@, i) + dice_bonus(dice@, j)
                    <= r->Ok_0 as int <= dice_count(dice@, i) * dice_sides(dice@, i, j)
                    + dice_bonus(dice@, j)),
    {
        match parse_dice_string(dice) {
            Ok(dt) => {
                let ghost (gi, gj) = choose|i: int, j: int|
                    #[trigger] valid_dice_at(dice@, i, j) && dice_fits(dice@, i, j);
                proof {
                    lemma_dice_values_nonneg(dice@, gi, gj);
                    assert forall|i2: int, j2: int|
                        valid_dice_at(dice@, i2, j2) implies i2 == gi && j2 == gj by {
                        lemma_split_unique(dice@, gi, gj, i2, j2);
                    }
                }
                let n64 = dt.n_dice as i64;
                let d64 = dt.die_type as i64;
                let b64 = dt.bonus as i64;
                proof {
                    assert(-0x4000_0000_0000_0000 <= (n64 as int) * (d64 as int)
                        <= 0x4000_0000_0000_0000) by (nonlinear_arith)
                        requires
                            -0x8000_0000 <= (n64 as int) <= 0x8000_0000,
                            -0x8000_0000 <= (d64 as int) <= 0x8000_0000,
                    ;
                }
                if dt.die_type >= 1 && dt.die_type < i32::MAX && n64 * d64 <= 0x7fff_ffff && n64
                    * d64 + b64 <= 0x7fff_ffff {
                    Ok(self.roll(dt))
                } else {
                    Err(DiceParseError)
                }
            },
            Err(e) => Err(e),
        }
    }
}

} // verus!
