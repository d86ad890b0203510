use arithmetic_problems_generator::{
    to_config, CheckerConfig, Config, ConfigError, GeneratorConfig,
};
use clap::{Arg, ArgGroup, Command};

#[test]
fn test_generator_config_new() {
    let config = GeneratorConfig::new(1, (1, 10));

    assert_eq!(config.number(), 1);
    assert_eq!(config.range(), (1, 10));
}

#[test]
fn test_generator_config_number() {
    let config = GeneratorConfig::new(1, (1, 10));

    assert_eq!(config.number(), 1);
}

#[test]
fn test_generator_config_range() {
    let config = GeneratorConfig::new(1, (1, 10));

    assert_eq!(config.range(), (1, 10));
}

#[test]
fn test_checker_config_new() {
    let config = CheckerConfig::new(String::from("exercise"), String::from("answer"));

    assert_eq!(config.exercise_path(), &String::from("exercise"));
    assert_eq!(config.answer_path(), &String::from("answer"));
}

#[test]
fn test_checker_config_from_str() {
    let config = CheckerConfig::from_str("Exercises.txt", "Answer.txt");

    assert_eq!(config.exercise_path(), &String::from("Exercises.txt"));
    assert_eq!(config.answer_path(), &String::from("Answer.txt"));
}

#[test]
fn test_config() {
    let generator_config = GeneratorConfig::new(0, (0, 0));
    let checker_config = CheckerConfig::new(String::new(), String::new());

    let config = Config::Generator(generator_config);
    match config {
        Config::Generator(_) => {
            assert!(true)
        }
        Config::Checker(_) => {
            assert!(false)
        }
    }

    let config = Config::Checker(checker_config);
    match config {
        Config::Generator(_) => {
            assert!(false)
        }
        Config::Checker(_) => {
            assert!(true)
        }
    }
}

// Build the command the program defines, so that argument combinations can
// be matched exactly as the binary would match them.
fn init() -> Command {
    Command::new("arithmetic-problems-generator")
        .version("0.1.0")
        .arg(
            Arg::new("num")
                .help("The number of generated problems")
                .short('n')
                .required(false),
        )
        .arg(
            Arg::new("range")
                .help("The range of numeric values in the question")
                .short('r')
                .required(false),
        )
        .arg(
            Arg::new("exercise_file")
                .help("The file path where the exercise questions are stored")
                .short('e')
                .required(false),
        )
        .arg(
            Arg::new("answer_file")
                .help("The file path where the answers to the exercise questions are stored")
                .short('a')
                .required(false),
        )
        .group(
            ArgGroup::new("check")
                .args(["exercise_file", "answer_file"])
                .conflicts_with("range")
                .conflicts_with("num")
                .multiple(true),
        )
        .group(
            ArgGroup::new("generate")
                .args(["num", "range"])
                .conflicts_with("exercise_file")
                .conflicts_with("answer_file")
                .multiple(true),
        )
}

fn config_from(matches: &clap::ArgMatches) -> Result<Config, ConfigError> {
    to_config(
        matches.get_one::<String>("num").cloned(),
        matches.get_one::<String>("range").cloned(),
        matches.get_one::<String>("exercise_file").cloned(),
        matches.get_one::<String>("answer_file").cloned(),
    )
}

#[test]
fn test_to_config_arg_range() {
    let command = init();

    let args = vec!["arithmetic-problems-generator", "-r", "10"];

    let matches = command.get_matches_from(&args);

    let range = match config_from(&matches).unwrap() {
        Config::Generator(generator_config) => generator_config.range(),
        Config::Checker(_) => (0, 0),
    };
    assert_eq!(range, (0, 10));
}

#[test]
fn test_to_config_arg_range_and_num() {
    let command = init();

    let args = vec!["arithmetic-problems-generator", "-n", "11", "-r", "10"];

    let matches = command.get_matches_from(&args);

    let range = match config_from(&matches).unwrap() {
        Config::Generator(generator_config) => (
            generator_config.range().0,
            generator_config.range().1,
            generator_config.number(),
        ),
        Config::Checker(_) => (0, 0, 0),
    };
    assert_eq!(range, (0, 10, 11));
}

#[test]
fn test_to_config_arg_num() {
    let command = init();

    let args = vec!["arithmetic-problems-generator", "-n", "11"];

    let matches = command.get_matches_from(&args);

    let range = match config_from(&matches).unwrap() {
        Config::Generator(generator_config) => (
            generator_config.range().0,
            generator_config.range().1,
            generator_config.number(),
        ),
        Config::Checker(_) => (0, 0, 0),
    };
    assert_eq!(range, (0, 100, 11));
}

#[test]
fn test_to_config_exercise_and_num() {
    let command = init();

    let args = vec![
        "arithmetic-problems-generator",
        "-n",
        "11",
        "-e",
        "test.txt",
    ];

    let matches = command.try_get_matches_from(&args);

    assert!(matches.is_err());
}

#[test]
fn test_to_config_exercise_and_answer() {
    let command = init();

    let args = vec![
        "arithmetic-problems-generator",
        "-a",
        "answer.txt",
        "-e",
        "exercise.txt",
    ];

    let matches = command.get_matches_from(&args);

    let config = match config_from(&matches).unwrap() {
        Config::Generator(_) => CheckerConfig::new(String::new(), String::new()),
        Config::Checker(config) => config,
    };

    assert_eq!(config.answer_path(), &String::from("answer.txt"));
    assert_eq!(config.exercise_path(), &String::from("exercise.txt"));
}

#[test]
fn test_to_config_missing_arguments() {
    let result = to_config(None, None, None, None);
    assert!(matches!(result, Err(ConfigError::ArgumentMissing)));

    // An exercise file alone selects no mode.
    let result = to_config(None, None, Some(String::from("e.txt")), None);
    assert!(matches!(result, Err(ConfigError::ArgumentMissing)));
}

#[test]
fn test_to_config_conversion_errors() {
    let result = to_config(None, Some(String::from("abc")), None, None);
    assert!(matches!(result, Err(ConfigError::ConversionException)));

    let result = to_config(Some(String::from("x")), Some(String::from("10")), None, None);
    assert!(matches!(result, Err(ConfigError::ConversionException)));

    // One past the largest 32-bit value does not convert.
    let result = to_config(Some(String::from("4294967296")), None, None, None);
    assert!(matches!(result, Err(ConfigError::ConversionException)));

    // The largest 32-bit value still converts.
    let result = to_config(Some(String::from("4294967295")), None, None, None);
    let number = match result.unwrap() {
        Config::Generator(generator_config) => generator_config.number(),
        Config::Checker(_) => 0,
    };
    assert_eq!(number, 4294967295);

    // A leading plus sign and leading zeros are accepted.
    let result = to_config(Some(String::from("+0042")), None, None, None);
    let number = match result.unwrap() {
        Config::Generator(generator_config) => generator_config.number(),
        Config::Checker(_) => 0,
    };
    assert_eq!(number, 42);
}

#[test]
fn test_config_error_messages() {
    assert_eq!(
        ConfigError::ConversionException.message(),
        "argument conversion exception"
    );
    assert_eq!(ConfigError::ArgumentMissing.message(), "argument missing");
}
