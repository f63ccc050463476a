use vstd::prelude::*;
use crate::input::{parse_milli, spec_parse_milli};
use crate::body::{
    body_weight_of, calculate_bmr_harris_benedict, calculate_bodycomp, calculate_macros, in_limit,
    macros_of, bmr_num, BodyWeight, Gender, Macros,
};

verus! {

/// What one round of the calculator was asked to do.
#[derive(Clone, Copy, Debug, PartialEq, Eq, Structural)]
pub enum Mode {
    Macros,
    BodyWeight,
    Both,
    Quit,
    Unrecognized,
}

/// A value that a round asks for.
#[derive(Clone, Copy, Debug, PartialEq, Eq, Structural)]
pub enum Field {
    BodyWeight,
    BodyFat,
    Age,
    Activity,
    Gender,
    Deficit,
    DesiredBodyFat,
}

impl Mode {
    pub open spec fn spec_from_char(c: char) -> Mode {
        if c == 'm' {
            Mode::Macros
        } else if c == 'b' {
            Mode::BodyWeight
        } else if c == 'd' {
            Mode::Both
        } else if c == 'q' {
            Mode::Quit
        } else {
            Mode::Unrecognized
        }
    }

    /// Reads a selection: `m` macros, `b` body weight, `d` both, `q` quit.
    pub fn from_char(c: char) -> (r: Mode)
        ensures
            r == Self::spec_from_char(c),
    {
        if c == 'm' {
            Mode::Macros
        } else if c == 'b' {
            Mode::BodyWeight
        } else if c == 'd' {
            Mode::Both
        } else if c == 'q' {
            Mode::Quit
        } else {
            Mode::Unrecognized
        }
    }

    pub open spec fn wants_macros(self) -> bool {
        self == Mode::Macros || self == Mode::Both
    }

    pub open spec fn wants_body_weight(self) -> bool {
        self == Mode::BodyWeight || self == Mode::Both
    }
}

/// The values a round asks for, in order: none on quit; otherwise body weight and
/// body fat, then what the selected calculations need.
pub open spec fn spec_fields(mode: Mode) -> Seq<Field> {
    if mode == Mode::Quit {
        seq![]
    } else {
        seq![Field::BodyWeight, Field::BodyFat]
            + (if mode.wants_macros() {
                seq![Field::Age, Field::Activity, Field::Gender, Field::Deficit]
            } else {
                seq![]
            })
            + (if mode.wants_body_weight() {
                seq![Field::DesiredBodyFat]
            } else {
                seq![]
            })
    }
}

pub fn fields_for(mode: Mode) -> (r: Vec<Field>)
    ensures
        r@ == spec_fields(mode),
{
    let mut r: Vec<Field> = Vec::new();
    if mode == Mode::Quit {
        assert(r@ =~= spec_fields(mode));
        return r;
    }
    r.push(Field::BodyWeight);
    r.push(Field::BodyFat);
    if mode == Mode::Macros || mode == Mode::Both {
        r.push(Field::Age);
        r.push(Field::Activity);
        r.push(Field::Gender);
        r.push(Field::Deficit);
    }
    if mode == Mode::BodyWeight || mode == Mode::Both {
        r.push(Field::DesiredBodyFat);
    }
    assert(r@ =~= spec_fields(mode));
    r
}

/// Converts a weight in thousandths of a pound to grams (0.45359237 kg per pound),
/// dropping the fraction of a gram.
pub open spec fn grams_from_pounds(pounds: int) -> int {
    if pounds >= 0 {
        pounds * 45_359_237 / 100_000_000
    } else {
        -((-pounds) * 45_359_237 / 100_000_000)
    }
}

pub fn pounds_to_grams(pounds: i64) -> (r: i64)
    requires
        in_limit(pounds as int),
    ensures
        r == grams_from_pounds(pounds as int),
        in_limit(r as int),
{
    let p = pounds as i128;
    if p >= 0 {
        let g: i128 = p * 45_359_237 / 100_000_000;
        g as i64
    } else {
        let g: i128 = (-p) * 45_359_237 / 100_000_000;
        (-g) as i64
    }
}

/// The answers given in one round; decimal values are in thousandths.
#[derive(Clone, Copy, Debug, PartialEq, Eq, Structural)]
pub struct Answers {
    pub weight_lb: i64,
    pub body_fat: i64,
    pub age: i32,
    pub activity: i64,
    pub gender: Gender,
    pub deficit: i64,
    pub desired_body_fat: i64,
}

impl Answers {
    /// Every decimal answer is within the supported magnitude.
    pub open spec fn wf(self) -> bool {
        &&& in_limit(self.weight_lb as int)
        &&& in_limit(self.body_fat as int)
        &&& in_limit(self.activity as int)
        &&& in_limit(self.deficit as int)
        &&& in_limit(self.desired_body_fat as int)
    }

    /// No answer given yet: zeros and an unknown gender.
    pub fn new() -> (r: Answers)
        ensures
            r.wf(),
            r == (Answers {
                weight_lb: 0,
                body_fat: 0,
                age: 0,
                activity: 0,
                gender: Gender::Unknown,
                deficit: 0,
                desired_body_fat: 0,
            }),
    {
        Answers {
            weight_lb: 0,
            body_fat: 0,
            age: 0,
            activity: 0,
            gender: Gender::Unknown,
            deficit: 0,
            desired_body_fat: 0,
        }
    }

    /// The answers after `token` is given for `field`, or `None` where the token
    /// does not read as that field: a decimal in thousandths (see `spec_parse_milli`),
    /// an age that is a whole number of years, or any text for the gender.
    pub open spec fn spec_supply(self, field: Field, token: Seq<u8>) -> Option<Answers> {
        match field {
            Field::Gender => Some(Answers { gender: Gender::spec_from_bytes(token), ..self }),
            Field::Age => match spec_parse_milli(token) {
                Some(v) => if whole_years(v) is Some {
                    Some(Answers { age: whole_years(v)->0 as i32, ..self })
                } else {
                    None
                },
                None => None,
            },
            _ => match spec_parse_milli(token) {
                Some(v) => Some(
                    match field {
                        Field::BodyWeight => Answers { weight_lb: v as i64, ..self },
                        Field::BodyFat => Answers { body_fat: v as i64, ..self },
                        Field::Activity => Answers { activity: v as i64, ..self },
                        Field::Deficit => Answers { deficit: v as i64, ..self },
                        _ => Answers { desired_body_fat: v as i64, ..self },
                    },
                ),
                None => None,
            },
        }
    }

    /// Records the answer `token` for `field`; returns false, changing nothing,
    /// where the token does not read as that field.
    pub fn supply(&mut self, field: Field, token: &[u8]) -> (ok: bool)
        requires
            old(self).wf(),
        ensures
            final(self).wf(),
            ok == Self::spec_supply(*old(self), field, token@) is Some,
            ok ==> *final(self) == Self::spec_supply(*old(self), field, token@)->0,
            !ok ==> *final(self) == *old(self),
    {
        match field {
            Field::Gender => {
                self.gender = Gender::from_bytes(token);
                true
            },
            Field::Age => match parse_milli(token) {
                Some(v) => {
                    let m: i64 = if v < 0 { -v } else { v };
                    if m % 1000 != 0 {
                        return false;
                    }
                    let years: i64 = if v < 0 { -(m / 1000) } else { m / 1000 };
                    self.age = years as i32;
                    true
                },
                None => false,
            },
            _ => match parse_milli(token) {
                Some(v) => {
                    match field {
                        Field::BodyWeight => self.weight_lb = v,
                        Field::BodyFat => self.body_fat = v,
                        Field::Activity => self.activity = v,
                        Field::Deficit => self.deficit = v,
                        _ => self.desired_body_fat = v,
                    }
                    true
                },
                None => false,
            },
        }
    }
}

/// A value in thousandths as whole years, where it has no fraction.
pub open spec fn whole_years(v: int) -> Option<int> {
    let m = if v < 0 { -v } else { v };
    if m % 1000 == 0 {
        Some(if v < 0 { -(m / 1000) } else { m / 1000 })
    } else {
        None
    }
}

/// What a round prints: each block only where it was computed.
#[derive(Clone, Copy, Debug, PartialEq, Eq, Structural)]
pub struct Report {
    pub macros: Option<Macros>,
    pub body_weight: Option<BodyWeight>,
}

pub open spec fn spec_report(mode: Mode, a: Answers) -> Report {
    let grams = grams_from_pounds(a.weight_lb as int);
    Report {
        macros: if mode.wants_macros() {
            Some(
                macros_of(
                    bmr_num(grams, a.age as int, a.gender, a.body_fat as int),
                    grams,
                    a.body_fat as int,
                    a.activity as int,
                    a.deficit as int,
                ),
            )
        } else {
            None
        },
        body_weight: if mode.wants_body_weight() {
            Some(body_weight_of(grams, a.body_fat as int, a.desired_body_fat as int))
        } else {
            None
        },
    }
}

/// Computes what a round prints from its answers.
pub fn evaluate(mode: Mode, a: &Answers) -> (r: Report)
    requires
        a.wf(),
    ensures
        r == spec_report(mode, *a),
{
    let grams = pounds_to_grams(a.weight_lb);
    let macros = if mode == Mode::Macros || mode == Mode::Both {
        let bmr = calculate_bmr_harris_benedict(grams, a.age, a.gender, a.body_fat);
        Some(calculate_macros(bmr, grams, a.body_fat, a.activity, a.deficit))
    } else {
        None
    };
    let body_weight = if mode == Mode::BodyWeight || mode == Mode::Both {
        Some(calculate_bodycomp(grams, a.body_fat, a.desired_body_fat))
    } else {
        None
    };
    Report { macros, body_weight }
}

} // verus!
