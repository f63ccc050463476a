use vstd::prelude::*;
use crate::ratio::Ratio;

verus! {

/// Largest magnitude of a decimal input, in thousandths (one million units).
pub const INPUT_LIMIT: i64 = 1_000_000_000;

/// Denominator of every basal-metabolic-rate estimate: kcal in units of 1e-11.
pub const BMR_DEN: i128 = 100_000_000_000;

/// Largest magnitude of the numerator of a basal-metabolic-rate estimate.
pub const BMR_NUM_LIMIT: i128 = 100_000_000_000_000_000_000_000;

/// The gender term of the body-fat-adjusted Harris-Benedict estimate.
#[derive(Clone, Copy, Debug, PartialEq, Eq, Structural)]
pub enum Gender {
    Male,
    Female,
    Unknown,
}

impl Gender {
    /// "m" is male, "f" is female, anything else is unknown.
    pub open spec fn spec_from_bytes(b: Seq<u8>) -> Gender {
        if b == seq![109u8] {
            Gender::Male
        } else if b == seq![102u8] {
            Gender::Female
        } else {
            Gender::Unknown
        }
    }

    pub fn from_bytes(b: &[u8]) -> (g: Gender)
        ensures
            g == Self::spec_from_bytes(b@),
    {
        if b.len() == 1 && b[0] == 109u8 {
            assert(b@ =~= seq![109u8]);
            Gender::Male
        } else if b.len() == 1 && b[0] == 102u8 {
            assert(b@ =~= seq![102u8]);
            Gender::Female
        } else {
            proof {
                if b@ == seq![109u8] {
                    assert(b@.len() == 1 && b@[0] == 109u8);
                }
                if b@ == seq![102u8] {
                    assert(b@.len() == 1 && b@[0] == 102u8);
                }
            }
            Gender::Unknown
        }
    }
}

/// A decimal input, in thousandths, within the supported magnitude.
pub open spec fn in_limit(x: int) -> bool {
    -INPUT_LIMIT <= x <= INPUT_LIMIT
}

/// Fat mass in units of 1e-8 kg, for a weight in grams and a body fat in thousandths of a percent.
pub open spec fn fat_mass(weight: int, body_fat: int) -> int {
    weight * body_fat
}

/// Lean mass in units of 1e-8 kg: the weight less the fat mass.
pub open spec fn lean_mass(weight: int, body_fat: int) -> int {
    weight * 100_000 - fat_mass(weight, body_fat)
}

/// The gender term in thousandths of a kcal.
pub open spec fn sex_term(g: Gender) -> int {
    match g {
        Gender::Male => 198_000,
        _ => 0,
    }
}

/// Numerator over `BMR_DEN` of the estimate
/// `13.587 * lean + 9.613 * fat + sex - 3.351 * age + 674` (kg and kcal),
/// or of the fallback `10` for an unknown gender.
pub open spec fn bmr_num(weight: int, age: int, gender: Gender, body_fat: int) -> int {
    match gender {
        Gender::Unknown => 10 * BMR_DEN,
        _ => 13587 * lean_mass(weight, body_fat) + 9613 * fat_mass(weight, body_fat)
            + (sex_term(gender) - 3351 * age + 674_000) * 100_000_000,
    }
}

proof fn lemma_mul_bound(a: int, b: int, x: int, y: int)
    requires
        -x <= a <= x,
        -y <= b <= y,
    ensures
        -(x * y) <= a * b <= x * y,
{
    assert(-(x * y) <= a * b <= x * y) by (nonlinear_arith)
        requires
            -x <= a <= x,
            -y <= b <= y,
    ;
}

pub proof fn lemma_masses_bound(weight: int, body_fat: int)
    requires
        in_limit(weight),
        in_limit(body_fat),
    ensures
        -1_000_000_000_000_000_000 <= fat_mass(weight, body_fat) <= 1_000_000_000_000_000_000,
        -1_000_100_000_000_000_000 <= lean_mass(weight, body_fat) <= 1_000_100_000_000_000_000,
{
    lemma_mul_bound(weight, body_fat, 1_000_000_000, 1_000_000_000);
    lemma_mul_bound(weight, 100_000 - body_fat, 1_000_000_000, 1_000_100_000);
    assert(lean_mass(weight, body_fat) == weight * (100_000 - body_fat)) by (nonlinear_arith);
}

/// Estimates the basal metabolic rate in kcal from a weight in grams, an age in
/// years, a gender and a body fat in thousandths of a percent.
pub fn calculate_bmr_harris_benedict(weight: i64, age: i32, gender: Gender, body_fat: i64) -> (r: Ratio)
    requires
        in_limit(weight as int),
        in_limit(body_fat as int),
    ensures
        r.den == BMR_DEN,
        r.num == bmr_num(weight as int, age as int, gender, body_fat as int),
        gender == Gender::Unknown ==> r.is_whole(10),
        -BMR_NUM_LIMIT <= r.num <= BMR_NUM_LIMIT,
{
    proof {
        lemma_masses_bound(weight as int, body_fat as int);
    }
    let w = weight as i128;
    let fat: i128 = w * (body_fat as i128);
    let lean: i128 = w * 100_000 - fat;
    match gender {
        Gender::Unknown => Ratio { num: 10 * BMR_DEN, den: BMR_DEN },
        _ => {
            let sex: i128 = match gender {
                Gender::Male => 198_000,
                _ => 0,
            };
            let constant: i128 = (sex - 3351 * (age as i128) + 674_000) * 100_000_000;
            Ratio { num: 13587 * lean + 9613 * fat + constant, den: BMR_DEN }
        },
    }
}

/// Denominator of a calorie figure of a macro split: kcal in units of 1e-14.
pub const CALORIE_DEN: i128 = 100_000_000_000_000;

/// Denominator of the carbohydrate figure: `CALORIE_DEN` times 20 (0.6 of the
/// calories at 4 kcal/g).
pub const CARBOHYDRATE_DEN: i128 = 2_000_000_000_000_000;

/// Denominator of the fat figure: `CALORIE_DEN` times 45 (0.4 of the calories at
/// 9 kcal/g).
pub const FAT_DEN: i128 = 4_500_000_000_000_000;

/// Denominator of the protein figure: grams in units of 1e-9.
pub const PROTEIN_DEN: i128 = 1_000_000_000;

/// Denominator of a target weight in kilograms: 1000 grams times 71300
/// (the fat-tissue factor 0.713 times 100000).
pub const TARGET_KG_DEN: i128 = 71_300_000;

/// Numerator of the pounds-per-kilogram factor 2.2046226218.
pub const LB_PER_KG_NUM: i128 = 22_046_226_218;

/// Denominator of the pounds-per-kilogram factor 2.2046226218.
pub const LB_PER_KG_DEN: i128 = 10_000_000_000;

/// Denominator of a target weight in pounds: `TARGET_KG_DEN * LB_PER_KG_DEN`.
pub const TARGET_LB_DEN: i128 = 713_000_000_000_000_000;

/// A daily intake: calories and grams of protein, carbohydrate and fat.
#[derive(Clone, Copy, Debug, PartialEq, Eq, Structural)]
pub struct Macros {
    pub calories: Ratio,
    pub protein: Ratio,
    pub carbohydrate: Ratio,
    pub fat: Ratio,
}

/// A target body weight in kilograms and in pounds.
#[derive(Clone, Copy, Debug, PartialEq, Eq, Structural)]
pub struct BodyWeight {
    pub kilograms: Ratio,
    pub pounds: Ratio,
}

/// Target calories over `CALORIE_DEN`: maintenance (`bmr * activity`) less the deficit.
pub open spec fn target_calories_num(bmr: int, activity: int, deficit: int) -> int {
    bmr * activity - deficit * BMR_DEN
}

/// Protein in grams over `PROTEIN_DEN`: 2.2 g per kg of lean mass.
pub open spec fn protein_num(weight: int, body_fat: int) -> int {
    22 * lean_mass(weight, body_fat)
}

/// Calories left over `CALORIE_DEN` once protein (4 kcal/g) is taken out.
pub open spec fn remaining_calories_num(
    bmr: int,
    weight: int,
    body_fat: int,
    activity: int,
    deficit: int,
) -> int {
    target_calories_num(bmr, activity, deficit) - 4 * protein_num(weight, body_fat) * 100_000
}

/// The macro split of an estimate `bmr` (over `BMR_DEN`) for a weight in grams, a
/// body fat in thousandths of a percent, an activity factor and a deficit in thousandths.
pub open spec fn macros_of(bmr: int, weight: int, body_fat: int, activity: int, deficit: int) -> Macros {
    let rem = remaining_calories_num(bmr, weight, body_fat, activity, deficit);
    Macros {
        calories: Ratio { num: target_calories_num(bmr, activity, deficit) as i128, den: CALORIE_DEN },
        protein: Ratio { num: protein_num(weight, body_fat) as i128, den: PROTEIN_DEN },
        carbohydrate: Ratio { num: (3 * rem) as i128, den: CARBOHYDRATE_DEN },
        fat: Ratio { num: (2 * rem) as i128, den: FAT_DEN },
    }
}

/// Splits the target intake: `bmr * activity - deficit` kcal, 2.2 g of protein per
/// kg of lean mass, and what remains 60% to carbohydrate (4 kcal/g) and 40% to fat
/// (9 kcal/g). Weight is in grams; body fat, activity and deficit in thousandths.
pub fn calculate_macros(bmr: Ratio, weight: i64, body_fat: i64, activity: i64, deficit: i64) -> (r: Macros)
    requires
        bmr.den == BMR_DEN,
        -BMR_NUM_LIMIT <= bmr.num <= BMR_NUM_LIMIT,
        in_limit(weight as int),
        in_limit(body_fat as int),
        in_limit(activity as int),
        in_limit(deficit as int),
    ensures
        r == macros_of(bmr.num as int, weight as int, body_fat as int, activity as int, deficit as int),
{
    proof {
        lemma_masses_bound(weight as int, body_fat as int);
        lemma_mul_bound(bmr.num as int, activity as int, BMR_NUM_LIMIT as int, INPUT_LIMIT as int);
    }
    let w = weight as i128;
    let lean: i128 = w * 100_000 - w * (body_fat as i128);
    let target: i128 = bmr.num * (activity as i128) - (deficit as i128) * BMR_DEN;
    let protein: i128 = 22 * lean;
    let remaining: i128 = target - 4 * protein * 100_000;
    Macros {
        calories: Ratio { num: target, den: CALORIE_DEN },
        protein: Ratio { num: protein, den: PROTEIN_DEN },
        carbohydrate: Ratio { num: 3 * remaining, den: CARBOHYDRATE_DEN },
        fat: Ratio { num: 2 * remaining, den: FAT_DEN },
    }
}

/// Target weight over `TARGET_KG_DEN`: the weight less the fat mass to lose
/// (`weight * (body_fat - desired) / 100`) divided by 0.713.
pub open spec fn target_kg_num(weight: int, body_fat: int, desired: int) -> int {
    weight * 71_300 - weight * (body_fat - desired)
}

/// The body weight at which `desired` body fat would be reached, for a weight in
/// grams and body fats in thousandths of a percent.
pub open spec fn body_weight_of(weight: int, body_fat: int, desired: int) -> BodyWeight {
    BodyWeight {
        kilograms: Ratio { num: target_kg_num(weight, body_fat, desired) as i128, den: TARGET_KG_DEN },
        pounds: Ratio {
            num: (target_kg_num(weight, body_fat, desired) * LB_PER_KG_NUM) as i128,
            den: TARGET_LB_DEN,
        },
    }
}

/// Computes the body weight at which the desired body fat would be reached,
/// assuming only fat tissue (0.713 of the weight lost) goes.
pub fn calculate_bodycomp(weight: i64, body_fat: i64, desired_percent: i64) -> (r: BodyWeight)
    requires
        in_limit(weight as int),
        in_limit(body_fat as int),
        in_limit(desired_percent as int),
    ensures
        r == body_weight_of(weight as int, body_fat as int, desired_percent as int),
{
    let w = weight as i128;
    let to_lose: i128 = (body_fat as i128) - (desired_percent as i128);
    proof {
        lemma_mul_bound(w as int, to_lose as int, 1_000_000_000, 2_000_000_000);
    }
    let kg: i128 = w * 71_300 - w * to_lose;
    proof {
        lemma_mul_bound(kg as int, LB_PER_KG_NUM as int, 2_100_000_000_000_000_000, LB_PER_KG_NUM as int);
    }
    BodyWeight {
        kilograms: Ratio { num: kg, den: TARGET_KG_DEN },
        pounds: Ratio { num: kg * LB_PER_KG_NUM, den: TARGET_LB_DEN },
    }
}

} // verus!
