//! Parsing of classic dice expressions: a count, the letter `d`, a die size,
//! and an optional signed bonus, as in `3d6+1` or `3d20-1`.
//!
//! The accepted strings are pinned down exactly: digits, one `d`, digits,
//! then nothing or a sign followed by digits — with every numeric part small
//! enough for a 32-bit value.

use crate::random::DiceType;
use vstd::prelude::*;

verus! {

/// Returned when a dice expression cannot be parsed, or its numbers do not
/// fit the dice type.
#[derive(Copy, Clone, PartialEq, Eq, Structural, Debug)]
pub struct DiceParseError;

/// Whether `c` is a decimal digit.
pub open spec fn is_digit(c: char) -> bool {
    '0' as int <= c as int && c as int <= '9' as int
}

/// The value of the digit `c`.
pub open spec fn digit_val(c: char) -> int {
    c as int - ('0' as int)
}

/// The number a string of digits denotes, most significant first.
pub open spec fn digits_val(s: Seq<char>) -> int
    decreases s.len(),
{
    if s.len() == 0 {
        0
    } else {
        digits_val(s.drop_last()) * 10 + digit_val(s.last())
    }
}

/// Whether `s` is a dice expression whose `d` stands at `i` and whose bonus
/// part (sign included) starts at `j` — with `j == s.len()` when there is no
/// bonus: digits up to `i`, digits strictly between `i` and `j`, and after
/// `j` a sign followed by digits.
pub open spec fn valid_dice_at(s: Seq<char>, i: int, j: int) -> bool {
    &&& 0 < i
    &&& i + 1 < j <= s.len()
    &&& s[i] == 'd'
    &&& forall|k: int| 0 <= k < i ==> is_digit(#[trigger] s[k])
    &&& forall|k: int| i < k < j ==> is_digit(#[trigger] s[k])
    &&& (j == s.len() || ((s[j] == '+' || s[j] == '-') && j + 1 < s.len() && forall|k: int|
        j < k < s.len() ==> is_digit(#[trigger] s[k])))
}

/// The number of dice a split expression names.
pub open spec fn dice_count(s: Seq<char>, i: int) -> int {
    digits_val(s.subrange(0, i))
}

/// The die size a split expression names.
pub open spec fn dice_sides(s: Seq<char>, i: int, j: int) -> int {
    digits_val(s.subrange(i + 1, j))
}

/// The signed bonus a split expression names; zero when there is none.
pub open spec fn dice_bonus(s: Seq<char>, j: int) -> int {
    if j == s.len() {
        0
    } else if s[j] == '+' {
        digits_val(s.subrange(j + 1, s.len() as int))
    } else {
        -digits_val(s.subrange(j + 1, s.len() as int))
    }
}

/// Whether every number of a split expression fits a 32-bit value.
pub open spec fn dice_fits(s: Seq<char>, i: int, j: int) -> bool {
    &&& dice_count(s, i) <= i32::MAX
    &&& dice_sides(s, i, j) <= i32::MAX
    &&& -0x7fff_ffff <= dice_bonus(s, j) <= 0x7fff_ffff
}

/// A string of digits denotes a non-negative number.
proof fn lemma_digits_val_nonneg(s: Seq<char>)
    requires
        forall|k: int| 0 <= k < s.len() ==> is_digit(#[trigger] s[k]),
    ensures
        digits_val(s) >= 0,
    decreases s.len(),
{
    if s.len() > 0 {
        assert(forall|k: int| 0 <= k < s.drop_last().len() ==> is_digit(
            #[trigger] s.drop_last()[k],
        ));
        lemma_digits_val_nonneg(s.drop_last());
    }
}

/// Reading one more digit multiplies the prefix value by ten and adds it.
proof fn lemma_digits_val_take_step(d: Seq<char>, k: int)
    requires
        0 <= k < d.len(),
    ensures
        digits_val(d.take(k + 1)) == 10 * digits_val(d.take(k)) + digit_val(d[k]),
{
    assert(d.take(k + 1).drop_last() =~= d.take(k));
    assert(d.take(k + 1).last() == d[k]);
}

/// A prefix of a digit string never denotes more than the whole string.
proof fn lemma_digits_val_prefix_le(d: Seq<char>, k: int)
    requires
        forall|m: int| 0 <= m < d.len() ==> is_digit(#[trigger] d[m]),
        0 <= k <= d.len(),
    ensures
        digits_val(d.take(k)) <= digits_val(d),
    decreases d.len() - k,
{
    if k == d.len() {
        assert(d.take(k) =~= d);
    } else {
        lemma_digits_val_take_step(d, k);
        assert(forall|m: int| 0 <= m < d.take(k).len() ==> is_digit(#[trigger] d.take(k)[m]));
        lemma_digits_val_nonneg(d.take(k));
        lemma_digits_val_prefix_le(d, k + 1);
    }
}

/// The numbers of a dice expression are never negative.
pub proof fn lemma_dice_values_nonneg(s: Seq<char>, i: int, j: int)
    requires
        valid_dice_at(s, i, j),
    ensures
        dice_count(s, i) >= 0,
        dice_sides(s, i, j) >= 0,
{
    lemma_digits_val_nonneg(s.subrange(0, i));
    lemma_digits_val_nonneg(s.subrange(i + 1, j));
}

/// A dice expression splits in only one way.
pub proof fn lemma_split_unique(s: Seq<char>, i: int, j: int, i2: int, j2: int)
    requires
        valid_dice_at(s, i, j),
        valid_dice_at(s, i2, j2),
    ensures
        i == i2,
        j == j2,
{
    assert(!is_digit('d'));
    assert(!is_digit('+'));
    assert(!is_digit('-'));
    if i < i2 {
        assert(is_digit(s[i]));
    } else if i2 < i {
        assert(is_digit(s[i2]));
    }
    if j < j2 {
        assert(is_digit(s[j]));
        assert(j != s.len());
    } else if j2 < j {
        assert(is_digit(s[j2]));
        assert(j2 != s.len());
    }
}

/// Whether `c` is a decimal digit.
fn is_digit_char(c: char) -> (r: bool)
    ensures
        r == is_digit(c),
{
    let v = c as u32;
    v >= 48 && v <= 57
}

/// Converts the digits of `s` between `start` and `end` to a number, or
/// `None` when the number exceeds a 32-bit value.
fn digits_to_i32(s: &str, start: usize, end: usize) -> (r: Option<i32>)
    requires
        start <= end <= s@.len(),
        forall|k: int| start <= k < end ==> is_digit(#[trigger] s@[k]),
    ensures
        r is Some <==> digits_val(s@.subrange(start as int, end as int)) <= i32::MAX,
        r matches Some(v) ==> v as int == digits_val(s@.subrange(start as int, end as int)),
{
    let ghost d = s@.subrange(start as int, end as int);
    proof {
        assert(forall|m: int| 0 <= m < d.len() ==> is_digit(#[trigger] d[m]));
    }
    let mut val: i64 = 0;
    let mut p = start;
    while p < end
        invariant
            start <= p <= end <= s@.len(),
            d == s@.subrange(start as int, end as int),
            forall|m: int| 0 <= m < d.len() ==> is_digit(#[trigger] d[m]),
            forall|k: int| start <= k < end ==> is_digit(#[trigger] s@[k]),
            0 <= val <= i32::MAX,
            val == digits_val(d.take(p - start)),
        decreases end - p,
    {
        let c = s.get_char(p);
        proof {
            assert(c == d[p - start]);
            lemma_digits_val_take_step(d, p - start);
        }
        let dv = (c as u32 - 48) as i64;
        val = val * 10 + dv;
        p = p + 1;
        if val > 0x7fff_ffff {
            proof {
                lemma_digits_val_prefix_le(d, p - start);
                assert(d.take(d.len() as int) =~= d);
            }
            return None;
        }
    }
    proof {
        assert(d.take(d.len() as int) =~= d);
    }
    Some(val as i32)
}

/// Parses a classic dice expression such as `1d20` or `3d6+1`. The whole
/// string must be the expression; the result carries its three numbers.
pub fn parse_dice_string(dice: &str) -> (r: Result<DiceType, DiceParseError>)
    ensures
        r is Ok <==> exists|i: int, j: int|
            #[trigger] valid_dice_at(dice@, i, j) && dice_fits(dice@, i, j),
        forall|i: int, j: int|
            valid_dice_at(dice@, i, j) && dice_fits(dice@, i, j) ==> r == Ok::<
                DiceType,
                DiceParseError,
            >(
                DiceType {
                    n_dice: dice_count(dice@, i) as i32,
                    die_type: dice_sides(dice@, i, j) as i32,
                    bonus: dice_bonus(dice@, j) as i32,
                },
            ),
{
    let ghost s = dice@;
    let len = dice.unicode_len();
    let mut i: usize = 0;
    while i < len && is_digit_char(dice.get_char(i))
        invariant
            0 <= i <= len,
            len == s.len(),
            s == dice@,
            forall|k: int| 0 <= k < i ==> is_digit(#[trigger] s[k]),
        decreases len - i,
    {
        i = i + 1;
    }
    if i == 0 || i >= len {
        proof {
            assert forall|i2: int, j2: int| !(valid_dice_at(s, i2, j2) && dice_fits(
                s,
                i2,
                j2,
            )) by {
                if valid_dice_at(s, i2, j2) {
                    if i == 0 {
                        assert(is_digit(s[0]));
                    } else {
                        assert(!is_digit('d'));
                        assert(is_digit(s[i2]));
                    }
                }
            }
        }
        return Err(DiceParseError);
    }
    if dice.get_char(i) != 'd' {
        proof {
            assert forall|i2: int, j2: int| !(valid_dice_at(s, i2, j2) && dice_fits(
                s,
                i2,
                j2,
            )) by {
                if valid_dice_at(s, i2, j2) {
                    assert(!is_digit('d'));
                    if i2 < i {
                        assert(is_digit(s[i2]));
                    } else if i2 > i {
                        assert(is_digit(s[i as int]));
                    }
                }
            }
        }
        return Err(DiceParseError);
    }
    let mut j: usize = i + 1;
    while j < len && is_digit_char(dice.get_char(j))
        invariant
            i + 1 <= j <= len,
            len == s.len(),
            s == dice@,
            forall|k: int| i < k < j ==> is_digit(#[trigger] s[k]),
        decreases len - j,
    {
        j = j + 1;
    }
    proof {
        assert(s[i as int] == 'd');
        assert(!is_digit('d'));
        assert(!is_digit('+'));
        assert(!is_digit('-'));
    }
    if j == i + 1 {
        proof {
            assert forall|i2: int, j2: int| !(valid_dice_at(s, i2, j2) && dice_fits(
                s,
                i2,
                j2,
            )) by {
                if valid_dice_at(s, i2, j2) {
                    if i2 < i {
                        assert(is_digit(s[i2]));
                    } else if i2 > i {
                        assert(is_digit(s[i as int]));
                    } else {
                        assert(is_digit(s[i + 1]));
                    }
                }
            }
        }
        return Err(DiceParseError);
    }
    if j < len {
        let sc = dice.get_char(j);
        if !(sc == '+' || sc == '-') {
            proof {
                assert forall|i2: int, j2: int| !(valid_dice_at(s, i2, j2) && dice_fits(
                    s,
                    i2,
                    j2,
                )) by {
                    if valid_dice_at(s, i2, j2) {
                        if i2 < i {
                            assert(is_digit(s[i2]));
                        } else if i2 > i {
                            assert(is_digit(s[i as int]));
                        } else if j2 < j {
                            assert(is_digit(s[j2]));
                        } else if j2 > j {
                            assert(is_digit(s[j as int]));
                        }
                    }
                }
            }
            return Err(DiceParseError);
        }
        if j + 1 >= len {
            proof {
                assert forall|i2: int, j2: int| !(valid_dice_at(s, i2, j2) && dice_fits(
                    s,
                    i2,
                    j2,
                )) by {
                    if valid_dice_at(s, i2, j2) {
                        if i2 < i {
                            assert(is_digit(s[i2]));
                        } else if i2 > i {
                            assert(is_digit(s[i as int]));
                        } else if j2 < j {
                            assert(is_digit(s[j2]));
                        } else if j2 > j {
                            assert(is_digit(s[j as int]));
                        }
                    }
                }
            }
            return Err(DiceParseError);
        }
        let mut k2: usize = j + 1;
        while k2 < len && is_digit_char(dice.get_char(k2))
            invariant
                j + 1 <= k2 <= len,
                len == s.len(),
                s == dice@,
                forall|k: int| j < k < k2 ==> is_digit(#[trigger] s[k]),
            decreases len - k2,
        {
            k2 = k2 + 1;
        }
        if k2 < len {
            proof {
                assert(!is_digit(s[k2 as int]));
                assert forall|i2: int, j2: int| !(valid_dice_at(s, i2, j2) && dice_fits(
                    s,
                    i2,
                    j2,
                )) by {
                    if valid_dice_at(s, i2, j2) {
                        if i2 < i {
                            assert(is_digit(s[i2]));
                        } else if i2 > i {
                            assert(is_digit(s[i as int]));
                        } else if j2 < j {
                            assert(is_digit(s[j2]));
                        } else if j2 > j {
                            assert(is_digit(s[j as int]));
                        } else {
                            assert(is_digit(s[k2 as int]));
                        }
                    }
                }
            }
            return Err(DiceParseError);
        }
    }
    proof {
        assert(valid_dice_at(s, i as int, j as int));
        lemma_digits_val_nonneg(s.subrange(0, i as int));
        lemma_digits_val_nonneg(s.subrange(i + 1, j as int));
        if j < len {
            lemma_digits_val_nonneg(s.subrange(j + 1, len as int));
        }
    }
    let n_opt = digits_to_i32(dice, 0, i);
    let die_opt = digits_to_i32(dice, i + 1, j);
    let bonus_opt: Option<i32> = if j < len {
        match digits_to_i32(dice, j + 1, len) {
            Some(m) => {
                if dice.get_char(j) == '+' {
                    Some(m)
                } else {
                    Some(-m)
                }
            },
            None => None,
        }
    } else {
        Some(0)
    };
    proof {
        assert forall|i2: int, j2: int|
            valid_dice_at(s, i2, j2) implies i2 == i as int && j2 == j as int by {
            lemma_split_unique(s, i as int, j as int, i2, j2);
        }
    }
    match (n_opt, die_opt, bonus_opt) {
        (Some(n), Some(die), Some(bonus)) => Ok(DiceType { n_dice: n, die_type: die, bonus }),
        _ => Err(DiceParseError),
    }
}

} // verus!
