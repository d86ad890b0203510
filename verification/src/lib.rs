//! A generator of constrained arithmetic exercises: single-operator
//! expressions over non-negative integers, built either from raw values
//! (validated against the arithmetic rules) or by rejection sampling from a
//! value range, and rendered in a canonical textual form.

pub mod error;
pub mod expression;
pub mod numeral;
pub mod parser;

pub use error::ErrorKind;
pub use expression::{Expression, Operand};
pub use parser::{to_config, ConfigError};

use vstd::prelude::*;
use vstd::string::StringExecFns;

verus! {

/// The mode the program runs in, with that mode's settings.
pub enum Config {
    Generator(GeneratorConfig),
    Checker(CheckerConfig),
}

/// Settings for generating exercises: how many, and the inclusive value
/// range their leaf values are drawn from.
pub struct GeneratorConfig {
    number: u32,
    range: (u32, u32),
}

/// Settings for checking answers: where the exercises and the submitted
/// answers are stored.
pub struct CheckerConfig {
    exercise_path: String,
    answer_path: String,
}

impl GeneratorConfig {
    /// The number of exercises to generate.
    pub closed spec fn spec_number(&self) -> u32 {
        self.number
    }

    /// The inclusive value range generated leaf values are drawn from.
    pub closed spec fn spec_range(&self) -> (u32, u32) {
        self.range
    }

    pub fn new(number: u32, range: (u32, u32)) -> (r: Self)
        ensures
            r.spec_number() == number,
            r.spec_range() == range,
    {
        Self { number, range }
    }

    pub fn number(&self) -> (r: u32)
        ensures
            r == self.spec_number(),
    {
        self.number
    }

    pub fn range(&self) -> (r: (u32, u32))
        ensures
            r == self.spec_range(),
    {
        self.range
    }
}

impl CheckerConfig {
    /// The path of the stored exercises.
    pub closed spec fn spec_exercise_path(&self) -> Seq<char> {
        self.exercise_path@
    }

    /// The path of the submitted answers.
    pub closed spec fn spec_answer_path(&self) -> Seq<char> {
        self.answer_path@
    }

    pub fn new(exercise_path: String, answer_path: String) -> (r: Self)
        ensures
            r.spec_exercise_path() == exercise_path@,
            r.spec_answer_path() == answer_path@,
    {
        Self { exercise_path, answer_path }
    }

    pub fn from_str(exercise_path: &str, answer_path: &str) -> (r: Self)
        ensures
            r.spec_exercise_path() == exercise_path@,
            r.spec_answer_path() == answer_path@,
    {
        Self {
            exercise_path: String::from_str(exercise_path),
            answer_path: String::from_str(answer_path),
        }
    }

    pub fn exercise_path(&self) -> (r: &String)
        ensures
            r@ == self.spec_exercise_path(),
    {
        &self.exercise_path
    }

    pub fn answer_path(&self) -> (r: &String)
        ensures
            r@ == self.spec_answer_path(),
    {
        &self.answer_path
    }
}

} // verus!
