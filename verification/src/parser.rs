//! Turning the values of the command-line arguments into a configuration:
//! the selection rules between generator and checker mode, and the numeric
//! conversion of the generator arguments.

use crate::numeral::{parse_u32, spec_decimal_val, spec_number_body, spec_parse_u32_ok};
use crate::{CheckerConfig, Config, GeneratorConfig};
use vstd::prelude::*;
use vstd::string::StringExecFns;

verus! {

/// Why the command-line arguments could not be turned into a configuration.
#[derive(Debug, Clone, Copy, PartialEq, Eq, Structural)]
pub enum ConfigError {
    /// An argument value could not be converted to a number.
    ConversionException,
    /// No mode-selecting combination of arguments was present.
    ArgumentMissing,
}

impl ConfigError {
    /// The diagnostic text for the error.
    pub fn message(&self) -> (r: String)
        ensures
            *self is ConversionException ==> r@ == "argument conversion exception"@,
            *self is ArgumentMissing ==> r@ == "argument missing"@,
    {
        match self {
            ConfigError::ConversionException => String::from_str("argument conversion exception"),
            ConfigError::ArgumentMissing => String::from_str("argument missing"),
        }
    }
}

/// The number of exercises generated when only a range is given.
pub const DEFAULT_NUMBER: u32 = 10;

/// The top of the value range when only a count is given.
pub const DEFAULT_RANGE_TOP: u32 = 100;

/// Select the mode and its settings from the four optional argument values.
/// A range argument selects generator mode with values drawn from zero up to
/// the range; a count argument alone selects generator mode with the default
/// range; an exercise file together with an answer file selects checker
/// mode. Numeric arguments that do not convert are rejected, as is any
/// combination that selects no mode.
pub fn to_config(
    num: Option<String>,
    range: Option<String>,
    exercise_file: Option<String>,
    answer_file: Option<String>,
) -> (r: Result<Config, ConfigError>)
    ensures
        r is Ok <==> {
            ||| (range matches Some(ra) && spec_parse_u32_ok(ra@) && (num matches Some(n) ==>
            spec_parse_u32_ok(n@)))
            ||| (range is None && (num matches Some(n) && spec_parse_u32_ok(n@)))
            ||| (range is None && num is None && exercise_file is Some && answer_file is Some)
        },
        r matches Ok(c) ==> match c {
            Config::Generator(g) => {
                &&& range is Some || num is Some
                &&& g.spec_number() as nat == if num is Some {
                    spec_decimal_val(spec_number_body(num->0@))
                } else {
                    DEFAULT_NUMBER as nat
                }
                &&& g.spec_range().0 == 0
                &&& g.spec_range().1 as nat == if range is Some {
                    spec_decimal_val(spec_number_body(range->0@))
                } else {
                    DEFAULT_RANGE_TOP as nat
                }
            },
            Config::Checker(c) => {
                &&& range is None && num is None
                &&& exercise_file matches Some(e) && c.spec_exercise_path() == e@
                &&& answer_file matches Some(a) && c.spec_answer_path() == a@
            },
        },
        r matches Err(e) ==> e == (if range is Some || num is Some {
            ConfigError::ConversionException
        } else {
            ConfigError::ArgumentMissing
        }),
{
    match (range, num) {
        (Some(range_text), num) => {
            let top = match parse_u32(range_text.as_str()) {
                Some(v) => v,
                None => {
                    return Err(ConfigError::ConversionException);
                },
            };
            let number = match num {
                Some(num_text) => match parse_u32(num_text.as_str()) {
                    Some(v) => v,
                    None => {
                        return Err(ConfigError::ConversionException);
                    },
                },
                None => DEFAULT_NUMBER,
            };
            Ok(Config::Generator(GeneratorConfig::new(number, (0, top))))
        },
        (None, Some(num_text)) => {
            let number = match parse_u32(num_text.as_str()) {
                Some(v) => v,
                None => {
                    return Err(ConfigError::ConversionException);
                },
            };
            Ok(Config::Generator(GeneratorConfig::new(number, (0, DEFAULT_RANGE_TOP))))
        },
        (None, None) => match (exercise_file, answer_file) {
            (Some(exercise_path), Some(answer_path)) => Ok(
                Config::Checker(CheckerConfig::new(exercise_path, answer_path)),
            ),
            _ => Err(ConfigError::ArgumentMissing),
        },
    }
}

} // verus!
