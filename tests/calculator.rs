use macrocalc::body::{
    calculate_bmr_harris_benedict, calculate_bodycomp, calculate_macros, Gender, BMR_DEN,
    CALORIE_DEN, PROTEIN_DEN, TARGET_KG_DEN, TARGET_LB_DEN,
};
use macrocalc::input::parse_milli;
use macrocalc::ratio::Ratio;
use macrocalc::session::{evaluate, fields_for, pounds_to_grams, Answers, Field, Mode};

#[test]
fn bmr_male_reference_values() {
    // 70 kg, 30 years, 20% body fat: 13.587*56 + 9.613*14 + 198 - 3.351*30 + 674
    let r = calculate_bmr_harris_benedict(70_000, 30, Gender::Male, 20_000);
    assert_eq!(r.den, BMR_DEN);
    assert_eq!(r.num, 166_692_400_000_000);
    assert_eq!(r.round_scaled(100), 166_692);
}

#[test]
fn bmr_female_has_no_gender_term() {
    let r = calculate_bmr_harris_benedict(70_000, 30, Gender::Female, 20_000);
    assert_eq!(r.num, 146_892_400_000_000);
    assert_eq!(r.round_scaled(1000), 1_468_924);
}

#[test]
fn bmr_unknown_gender_is_ten() {
    for (w, age, bf) in [(70_000, 30, 20_000), (120_500, 71, 35_250), (0, 0, 0), (-5_000, -3, 999_999)] {
        let r = calculate_bmr_harris_benedict(w, age, Gender::Unknown, bf);
        assert_eq!(r.num, 10 * r.den);
    }
}

#[test]
fn gender_from_text() {
    assert_eq!(Gender::from_bytes(b"m"), Gender::Male);
    assert_eq!(Gender::from_bytes(b"f"), Gender::Female);
    assert_eq!(Gender::from_bytes(b"x"), Gender::Unknown);
    assert_eq!(Gender::from_bytes(b"male"), Gender::Unknown);
    assert_eq!(Gender::from_bytes(b""), Gender::Unknown);
}

#[test]
fn macros_reference_values() {
    let bmr = calculate_bmr_harris_benedict(70_000, 30, Gender::Male, 20_000);
    let m = calculate_macros(bmr, 70_000, 20_000, 1_550, 500_000);
    assert_eq!(m.calories, Ratio { num: 208_373_220_000_000_000, den: CALORIE_DEN });
    assert_eq!(m.protein, Ratio { num: 123_200_000_000, den: PROTEIN_DEN });
    assert_eq!(m.calories.round_scaled(1), 2084);
    assert_eq!(m.protein.round_scaled(1), 123);
    assert_eq!(m.carbohydrate.round_scaled(1), 239);
    assert_eq!(m.fat.round_scaled(1), 71);
}

#[test]
fn protein_ignores_deficit_and_activity() {
    let bmr = calculate_bmr_harris_benedict(70_000, 30, Gender::Male, 20_000);
    let a = calculate_macros(bmr, 70_000, 20_000, 1_200, 0);
    let b = calculate_macros(bmr, 70_000, 20_000, 1_900, 1_000_000);
    assert_eq!(a.protein, b.protein);
    // 2.2 g per kg of 56 kg lean mass
    assert_eq!(a.protein.round_scaled(10), 1232);
}

#[test]
fn carbohydrate_and_fat_split_sixty_forty() {
    let bmr = calculate_bmr_harris_benedict(80_000, 40, Gender::Female, 25_000);
    let m = calculate_macros(bmr, 80_000, 25_000, 1_375, 300_000);
    let carb_kcal = m.carbohydrate.num * 4;
    let fat_kcal = m.fat.num * 9;
    assert!(carb_kcal > 0);
    // carb_kcal / carb.den : fat_kcal / fat.den == 60 : 40
    assert_eq!(carb_kcal * m.fat.den * 40, fat_kcal * m.carbohydrate.den * 60);
}

#[test]
fn extreme_deficit_gives_negative_carbohydrate() {
    let bmr = calculate_bmr_harris_benedict(70_000, 30, Gender::Male, 20_000);
    let m = calculate_macros(bmr, 70_000, 20_000, 1_200, 5_000_000);
    assert!(m.carbohydrate.num < 0);
    assert!(m.fat.num < 0);
}

#[test]
fn same_body_fat_keeps_weight() {
    let t = calculate_bodycomp(70_000, 20_000, 20_000);
    assert_eq!(t.kilograms.num * 1000, 70_000 * t.kilograms.den);
    assert_eq!(t.kilograms.round_scaled(100), 7000);
}

#[test]
fn body_weight_reference_values() {
    let t = calculate_bodycomp(70_000, 20_000, 15_000);
    assert_eq!(t.kilograms, Ratio { num: 4_641_000_000, den: TARGET_KG_DEN });
    assert_eq!(t.kilograms.round_scaled(100), 6509);
    assert_eq!(t.pounds.round_scaled(100), 14350);
}

#[test]
fn pounds_are_kilograms_times_factor() {
    for (w, bf, d) in [(70_000, 20_000, 15_000), (95_250, 31_500, 12_000), (50_000, 10_000, 25_000)] {
        let t = calculate_bodycomp(w, bf, d);
        assert_eq!(t.pounds.num, t.kilograms.num * 22_046_226_218);
        assert_eq!(t.pounds.den, TARGET_LB_DEN);
        assert_eq!(t.pounds.den, t.kilograms.den * 10_000_000_000);
    }
}

#[test]
fn higher_desired_body_fat_raises_target() {
    let t = calculate_bodycomp(70_000, 15_000, 20_000);
    assert!(t.kilograms.num > 70 * t.kilograms.den);
}

#[test]
fn quit_asks_for_nothing() {
    let mode = Mode::from_char('q');
    assert_eq!(mode, Mode::Quit);
    assert!(fields_for(mode).is_empty());
}

#[test]
fn unrecognized_selection_asks_shared_values_and_prints_nothing() {
    let mode = Mode::from_char('z');
    assert_eq!(mode, Mode::Unrecognized);
    assert_eq!(fields_for(mode), vec![Field::BodyWeight, Field::BodyFat]);
    let mut a = Answers::new();
    assert!(a.supply(Field::BodyWeight, b"154.324"));
    assert!(a.supply(Field::BodyFat, b"20"));
    let r = evaluate(mode, &a);
    assert!(r.macros.is_none());
    assert!(r.body_weight.is_none());
}

#[test]
fn fields_for_each_mode() {
    assert_eq!(
        fields_for(Mode::from_char('m')),
        vec![Field::BodyWeight, Field::BodyFat, Field::Age, Field::Activity, Field::Gender, Field::Deficit]
    );
    assert_eq!(fields_for(Mode::from_char('b')), vec![Field::BodyWeight, Field::BodyFat, Field::DesiredBodyFat]);
    assert_eq!(
        fields_for(Mode::from_char('d')),
        vec![
            Field::BodyWeight,
            Field::BodyFat,
            Field::Age,
            Field::Activity,
            Field::Gender,
            Field::Deficit,
            Field::DesiredBodyFat
        ]
    );
}

#[test]
fn both_mode_end_to_end() {
    let mode = Mode::from_char('d');
    let mut a = Answers::new();
    let tokens: [&[u8]; 7] = [b"154.324", b"20", b"30", b"1.55", b"m", b"500", b"15"];
    for (field, token) in fields_for(mode).into_iter().zip(tokens) {
        assert!(a.supply(field, token));
    }
    let r = evaluate(mode, &a);
    let m = r.macros.unwrap();
    assert_eq!(m.calories.round_scaled(1), 2084);
    assert_eq!(m.protein.round_scaled(1), 123);
    assert_eq!(m.carbohydrate.round_scaled(1), 239);
    assert_eq!(m.fat.round_scaled(1), 71);
    let t = r.body_weight.unwrap();
    assert_eq!(t.kilograms.round_scaled(100), 6509);
    assert_eq!(t.pounds.round_scaled(100), 14350);
}

#[test]
fn macros_mode_prints_only_macros() {
    let mut a = Answers::new();
    assert!(a.supply(Field::Gender, b"f"));
    let r = evaluate(Mode::Macros, &a);
    assert!(r.macros.is_some());
    assert!(r.body_weight.is_none());
    let r = evaluate(Mode::BodyWeight, &a);
    assert!(r.macros.is_none());
    assert!(r.body_weight.is_some());
}

#[test]
fn pounds_convert_to_grams() {
    assert_eq!(pounds_to_grams(154_324), 70_000);
    assert_eq!(pounds_to_grams(180_500), 81_873);
    assert_eq!(pounds_to_grams(-1_000), -453);
    assert_eq!(pounds_to_grams(0), 0);
}

#[test]
fn parse_decimals() {
    assert_eq!(parse_milli(b"180.5"), Some(180_500));
    assert_eq!(parse_milli(b"1.375"), Some(1_375));
    assert_eq!(parse_milli(b"-2"), Some(-2_000));
    assert_eq!(parse_milli(b"+7.25"), Some(7_250));
    assert_eq!(parse_milli(b".5"), Some(500));
    assert_eq!(parse_milli(b"5."), Some(5_000));
    assert_eq!(parse_milli(b"0"), Some(0));
    assert_eq!(parse_milli(b"1000000"), Some(1_000_000_000));
    assert_eq!(parse_milli(b"-1000000.000"), Some(-1_000_000_000));
}

#[test]
fn parse_rejects_malformed() {
    assert_eq!(parse_milli(b""), None);
    assert_eq!(parse_milli(b"-"), None);
    assert_eq!(parse_milli(b"."), None);
    assert_eq!(parse_milli(b"abc"), None);
    assert_eq!(parse_milli(b"1.2345"), None);
    assert_eq!(parse_milli(b"1.2.3"), None);
    assert_eq!(parse_milli(b"12a"), None);
    assert_eq!(parse_milli(b"1000000.001"), None);
    assert_eq!(parse_milli(b"99999999999999999999999"), None);
}

#[test]
fn supply_rejects_and_keeps() {
    let mut a = Answers::new();
    assert!(!a.supply(Field::Age, b"30.5"));
    assert_eq!(a, Answers::new());
    assert!(a.supply(Field::Age, b"-30"));
    assert_eq!(a.age, -30);
    assert!(!a.supply(Field::BodyFat, b"twenty"));
    assert_eq!(a.body_fat, 0);
    assert!(a.supply(Field::Activity, b"1.725"));
    assert_eq!(a.activity, 1_725);
}

#[test]
fn rounding_halves_away_from_zero() {
    assert_eq!(Ratio { num: 5, den: 2 }.round_scaled(1), 3);
    assert_eq!(Ratio { num: -5, den: 2 }.round_scaled(1), -3);
    assert_eq!(Ratio { num: 7, den: 3 }.round_scaled(100), 233);
    assert_eq!(Ratio { num: 0, den: 9 }.round_scaled(1), 0);
}
