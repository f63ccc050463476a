use vstd::prelude::*;
use crate::ratio::Ratio;
use crate::session::{spec_fields, spec_report, Answers, Field, Mode};
use crate::body::{
    bmr_num, body_weight_of, in_limit, lean_mass, lemma_masses_bound, macros_of, remaining_calories_num,
    target_kg_num, Gender, BMR_DEN, BMR_NUM_LIMIT, CALORIE_DEN, LB_PER_KG_DEN, LB_PER_KG_NUM, PROTEIN_DEN,
    TARGET_KG_DEN,
};

verus! {

/// An unknown gender gives the fallback estimate of exactly 10 kcal, whatever the
/// other inputs are.
pub proof fn lemma_unknown_gender_gives_ten(weight: int, age: int, body_fat: int)
    ensures
        (Ratio { num: bmr_num(weight, age, Gender::Unknown, body_fat) as i128, den: BMR_DEN }).is_whole(10),
{
}

/// Protein is 2.2 g per kg of lean mass, and does not depend on the estimate, the
/// activity factor or the deficit.
pub proof fn lemma_protein_from_lean_mass_only(
    bmr1: int,
    bmr2: int,
    weight: int,
    body_fat: int,
    activity1: int,
    activity2: int,
    deficit1: int,
    deficit2: int,
)
    requires
        in_limit(weight),
        in_limit(body_fat),
    ensures
        macros_of(bmr1, weight, body_fat, activity1, deficit1).protein
            == macros_of(bmr2, weight, body_fat, activity2, deficit2).protein,
        // lean mass is counted in units of 1e-8 kg
        macros_of(bmr1, weight, body_fat, activity1, deficit1).protein.num * 10 * 100_000_000
            == 22 * lean_mass(weight, body_fat) * PROTEIN_DEN,
{
    lemma_masses_bound(weight, body_fat);
}

/// Of the calories left once protein is taken out, carbohydrate (4 kcal/g) takes
/// exactly 60% and fat (9 kcal/g) exactly 40%, so carbohydrate and fat calories
/// stand at 60:40.
pub proof fn lemma_sixty_forty_split(bmr: int, weight: int, body_fat: int, activity: int, deficit: int)
    requires
        -BMR_NUM_LIMIT <= bmr <= BMR_NUM_LIMIT,
        in_limit(weight),
        in_limit(body_fat),
        in_limit(activity),
        in_limit(deficit),
    ensures
        ({
            let m = macros_of(bmr, weight, body_fat, activity, deficit);
            let rem = remaining_calories_num(bmr, weight, body_fat, activity, deficit);
            &&& 4 * m.carbohydrate.num * 10 * CALORIE_DEN == 6 * rem * m.carbohydrate.den
            &&& 9 * m.fat.num * 10 * CALORIE_DEN == 4 * rem * m.fat.den
            &&& 4 * m.carbohydrate.num * m.fat.den * 40 == 9 * m.fat.num * m.carbohydrate.den * 60
        }),
{
    lemma_remaining_bound(bmr, weight, body_fat, activity, deficit);
}

/// Bounds the calories left in a split, so that its figures fit in `i128`.
pub proof fn lemma_remaining_bound(bmr: int, weight: int, body_fat: int, activity: int, deficit: int)
    requires
        -BMR_NUM_LIMIT <= bmr <= BMR_NUM_LIMIT,
        in_limit(weight),
        in_limit(body_fat),
        in_limit(activity),
        in_limit(deficit),
    ensures
        -200_000_000_000_000_000_000_000_000_000_000 <= remaining_calories_num(bmr, weight, body_fat, activity, deficit)
            <= 200_000_000_000_000_000_000_000_000_000_000,
{
    lemma_masses_bound(weight, body_fat);
    assert(-100_000_000_000_000_000_000_000_000_000_000 <= bmr * activity
        <= 100_000_000_000_000_000_000_000_000_000_000) by (nonlinear_arith)
        requires
            -BMR_NUM_LIMIT <= bmr <= BMR_NUM_LIMIT,
            in_limit(activity),
    ;
}

/// Desiring the current body fat leaves the weight as it is.
pub proof fn lemma_same_body_fat_keeps_weight(weight: int, body_fat: int)
    requires
        in_limit(weight),
        in_limit(body_fat),
    ensures
        body_weight_of(weight, body_fat, body_fat).kilograms.same_value(
            Ratio { num: weight as i128, den: 1000 },
        ),
{
    assert(weight * (body_fat - body_fat) == 0) by (nonlinear_arith);
    assert((weight * 71_300) * 1000 == weight * TARGET_KG_DEN) by (nonlinear_arith);
}

/// The target in pounds is the target in kilograms times 2.2046226218, exactly.
pub proof fn lemma_pounds_from_kilograms(weight: int, body_fat: int, desired: int)
    requires
        in_limit(weight),
        in_limit(body_fat),
        in_limit(desired),
    ensures
        ({
            let t = body_weight_of(weight, body_fat, desired);
            &&& t.pounds.num == t.kilograms.num * LB_PER_KG_NUM
            &&& t.pounds.den == t.kilograms.den * LB_PER_KG_DEN
        }),
{
    lemma_target_bound(weight, body_fat, desired);
}

/// Bounds a target weight, so that its figures fit in `i128`.
pub proof fn lemma_target_bound(weight: int, body_fat: int, desired: int)
    requires
        in_limit(weight),
        in_limit(body_fat),
        in_limit(desired),
    ensures
        -2_100_000_000_000_000_000 <= target_kg_num(weight, body_fat, desired) <= 2_100_000_000_000_000_000,
{
    assert(-2_000_000_000_000_000_000 <= weight * (body_fat - desired) <= 2_000_000_000_000_000_000)
        by (nonlinear_arith)
        requires
            in_limit(weight),
            in_limit(body_fat),
            in_limit(desired),
    ;
}

/// Selecting quit asks for nothing more.
pub proof fn lemma_quit_asks_nothing()
    ensures
        Mode::spec_from_char('q') == Mode::Quit,
        spec_fields(Mode::Quit).len() == 0,
{
}

/// A selection other than `m`, `b`, `d` or `q` still asks for body weight and body
/// fat, and nothing else, and prints no block.
pub proof fn lemma_unrecognized_selection(c: char, a: Answers)
    requires
        c != 'm' && c != 'b' && c != 'd' && c != 'q',
    ensures
        Mode::spec_from_char(c) == Mode::Unrecognized,
        spec_fields(Mode::spec_from_char(c)) == seq![Field::BodyWeight, Field::BodyFat],
        spec_report(Mode::spec_from_char(c), a).macros.is_none(),
        spec_report(Mode::spec_from_char(c), a).body_weight.is_none(),
{
    assert(spec_fields(Mode::Unrecognized) =~= seq![Field::BodyWeight, Field::BodyFat]);
}

} // verus!
