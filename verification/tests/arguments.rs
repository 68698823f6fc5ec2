use clap::builder::{
    FalseyValueParser, PathBufValueParser, PossibleValuesParser, RangedI64ValueParser,
    TypedValueParser,
};
use clap::parser::ValueSource;
use clap::{Arg, ArgAction, ArgMatches, Command};
use std::path::PathBuf;
use tetrs::command::wrap;
use tetrs::config::{
    base_value, init, setter_of, to_value, BaseError, Setter, TetrsColour, TetrsDifficulty, Value,
    ValueOrigin, COLOUR, CONFIG, DEBUG, DIFFICULTY, HEIGHT, LINE_LIMIT, NO_HOLD, WIDTH,
};

fn colour(name: String) -> TetrsColour {
    match name.as_str() {
        "never" => TetrsColour::Never,
        "falling" => TetrsColour::Falling,
        "always" => TetrsColour::Always,
        _ => TetrsColour::Line,
    }
}

fn difficulty(name: String) -> TetrsDifficulty {
    match name.as_str() {
        "noob" => TetrsDifficulty::Noob,
        "easy" => TetrsDifficulty::Easy,
        "hard" => TetrsDifficulty::Hard,
        "expert" => TetrsDifficulty::Expert,
        "incremental" => TetrsDifficulty::Incremental,
        _ => TetrsDifficulty::Normal,
    }
}

fn command() -> Command {
    Command::new("tetrs")
        .arg(
            Arg::new(CONFIG)
                .short('C')
                .long("config")
                .default_value("/home/player/.config/tetrs.toml")
                .value_parser(PathBufValueParser::new()),
        )
        .arg(Arg::new(DEBUG).short('D').long("dubug").action(ArgAction::Count))
        .arg(
            Arg::new(COLOUR)
                .short('c')
                .long("colour")
                .value_parser(
                    PossibleValuesParser::new(["never", "falling", "line", "always"]).map(colour),
                )
                .default_value("line")
                .action(ArgAction::Set),
        )
        .arg(
            Arg::new(DIFFICULTY)
                .short('d')
                .long("difficulty")
                .value_parser(
                    PossibleValuesParser::new([
                        "noob",
                        "easy",
                        "normal",
                        "hard",
                        "expert",
                        "incremental",
                    ])
                    .map(difficulty),
                )
                .default_value("normal")
                .action(ArgAction::Set),
        )
        .arg(
            Arg::new(NO_HOLD)
                .short('n')
                .long("no-hold")
                .action(ArgAction::SetTrue)
                .value_parser(FalseyValueParser::new()),
        )
        .arg(
            Arg::new(LINE_LIMIT)
                .short('l')
                .long("line-limit")
                .value_parser(RangedI64ValueParser::<u16>::new())
                .default_value("0")
                .action(ArgAction::Set),
        )
        .arg(
            Arg::new(WIDTH)
                .short('W')
                .long("width")
                .value_parser(RangedI64ValueParser::<u8>::new())
                .default_value("10")
                .action(ArgAction::Set),
        )
        .arg(
            Arg::new(HEIGHT)
                .short('H')
                .long("height")
                .value_parser(RangedI64ValueParser::<u8>::new())
                .default_value("24")
                .action(ArgAction::Set),
        )
        .disable_help_flag(true)
}

fn parse(line: &[&str]) -> ArgMatches {
    command().try_get_matches_from(line).unwrap()
}

#[test]
fn origins_stand_for_setters() {
    assert_eq!(setter_of(Some(ValueOrigin::CommandLine)), Some(Setter::Command));
    assert_eq!(setter_of(Some(ValueOrigin::EnvVariable)), Some(Setter::Environment));
    assert_eq!(setter_of(Some(ValueOrigin::DefaultValue)), Some(Setter::Default));
}

#[test]
fn unexpected_origins_have_no_setter() {
    assert_eq!(setter_of(Some(ValueOrigin::Unknown)), None);
    assert_eq!(setter_of(None), None);
}

#[test]
fn base_value_pairs_value_and_setter() {
    assert_eq!(
        base_value(Some(12u8), Some(ValueOrigin::EnvVariable)),
        Ok(Value { value: 12, set_by: Setter::Environment })
    );
    assert_eq!(
        base_value(Some("line"), Some(ValueOrigin::DefaultValue)),
        Ok(Value { value: "line", set_by: Setter::Default })
    );
}

#[test]
fn base_value_without_a_value_is_missing() {
    assert_eq!(base_value::<u8>(None, Some(ValueOrigin::CommandLine)), Err(BaseError::Missing));
    assert_eq!(base_value::<u8>(None, None), Err(BaseError::Missing));
}

#[test]
fn base_value_with_an_unexpected_origin_fails() {
    assert_eq!(base_value(Some(1u8), None), Err(BaseError::UnexpectedSource));
    assert_eq!(base_value(Some(1u8), Some(ValueOrigin::Unknown)), Err(BaseError::UnexpectedSource));
}

#[test]
fn parsed_origin_agrees_with_the_base_layer() {
    let expected = wrap(Some(20u8), Some(12), 10);
    assert_eq!(base_value(Some(expected.value), Some(ValueOrigin::CommandLine)), Ok(expected));
    let expected = wrap(None, Some(12u8), 10);
    assert_eq!(base_value(Some(expected.value), Some(ValueOrigin::EnvVariable)), Ok(expected));
    let expected = wrap(None, None, 10u8);
    assert_eq!(base_value(Some(expected.value), Some(ValueOrigin::DefaultValue)), Ok(expected));
}

#[test]
fn argument_from_the_command_line() {
    let matches = parse(&["tetrs", "--width", "20"]);
    let width = to_value::<u8>(&matches, WIDTH);
    assert_eq!(width, Ok(Value { value: &20, set_by: Setter::Command }));
}

#[test]
fn argument_left_at_its_default() {
    let matches = parse(&["tetrs", "--width", "20"]);
    let height = to_value::<u8>(&matches, HEIGHT);
    assert_eq!(height, Ok(Value { value: &24, set_by: Setter::Default }));
}

#[test]
fn argument_with_an_environment_fallback() {
    let matches = Command::new("tetrs")
        .arg(
            Arg::new("home")
                .long("home")
                .env("HOME")
                .default_value("nowhere")
                .value_parser(PathBufValueParser::new()),
        )
        .try_get_matches_from(["tetrs"])
        .unwrap();
    let home = to_value::<PathBuf>(&matches, "home").unwrap();
    assert_eq!(Some(home.value), matches.get_one::<PathBuf>("home"));
    match matches.value_source("home") {
        Some(ValueSource::EnvVariable) => assert_eq!(home.set_by, Setter::Environment),
        Some(ValueSource::DefaultValue) => {
            assert_eq!(home.value, &PathBuf::from("nowhere"));
            assert_eq!(home.set_by, Setter::Default)
        }
        other => panic!("unexpected origin {:?}", other),
    }
}

#[test]
fn argument_that_is_not_defined() {
    let matches = parse(&["tetrs"]);
    let depth = to_value::<u8>(&matches, "depth");
    assert!(matches!(depth, Err(BaseError::Mismatch) | Err(BaseError::Missing)));
}

#[test]
fn argument_of_another_type() {
    let matches = parse(&["tetrs"]);
    let width = to_value::<u16>(&matches, WIDTH);
    assert_eq!(width, Err(BaseError::Mismatch));
}

#[test]
fn argument_without_a_value() {
    let matches = Command::new("tetrs")
        .arg(Arg::new("seed").long("seed").value_parser(RangedI64ValueParser::<u8>::new()))
        .try_get_matches_from(["tetrs"])
        .unwrap();
    let seed = to_value::<u8>(&matches, "seed");
    assert_eq!(seed, Err(BaseError::Missing));
}

#[test]
fn base_layer_of_a_bare_command_line() {
    let matches = parse(&["tetrs"]);
    let base = init(&matches).unwrap();
    let path = PathBuf::from("/home/player/.config/tetrs.toml");
    assert_eq!(base.config, Value { value: &path, set_by: Setter::Default });
    assert_eq!(base.debug, Value { value: &0, set_by: Setter::Default });
    assert_eq!(base.colour, Value { value: &TetrsColour::Line, set_by: Setter::Default });
    assert_eq!(base.difficulty, Value { value: &TetrsDifficulty::Normal, set_by: Setter::Default });
    assert_eq!(base.no_hold, Value { value: &false, set_by: Setter::Default });
    assert_eq!(base.limit, Value { value: &0, set_by: Setter::Default });
    assert_eq!(base.width, Value { value: &10, set_by: Setter::Default });
    assert_eq!(base.height, Value { value: &24, set_by: Setter::Default });
}

#[test]
fn base_layer_of_a_full_command_line() {
    let matches = parse(&[
        "tetrs", "-C", "game.toml", "-D", "-D", "-c", "never", "-d", "expert", "-n", "-l", "150",
        "-W", "12", "-H", "30",
    ]);
    let base = init(&matches).unwrap();
    let path = PathBuf::from("game.toml");
    assert_eq!(base.config, Value { value: &path, set_by: Setter::Command });
    assert_eq!(base.debug, Value { value: &2, set_by: Setter::Command });
    assert_eq!(base.colour, Value { value: &TetrsColour::Never, set_by: Setter::Command });
    assert_eq!(base.difficulty, Value { value: &TetrsDifficulty::Expert, set_by: Setter::Command });
    assert_eq!(base.no_hold, Value { value: &true, set_by: Setter::Command });
    assert_eq!(base.limit, Value { value: &150, set_by: Setter::Command });
    assert_eq!(base.width, Value { value: &12, set_by: Setter::Command });
    assert_eq!(base.height, Value { value: &30, set_by: Setter::Command });
}

#[test]
fn base_layer_of_a_mixed_command_line() {
    let matches = parse(&["tetrs", "--difficulty", "hard", "--line-limit", "40"]);
    let base = init(&matches).unwrap();
    assert_eq!(base.difficulty, Value { value: &TetrsDifficulty::Hard, set_by: Setter::Command });
    assert_eq!(base.limit, Value { value: &40, set_by: Setter::Command });
    assert_eq!(base.width, Value { value: &10, set_by: Setter::Default });
    assert_eq!(base.config.set_by, Setter::Default);
}

#[test]
fn base_layer_needs_every_argument() {
    let matches = Command::new("tetrs")
        .arg(Arg::new(WIDTH).long("width").value_parser(RangedI64ValueParser::<u8>::new()))
        .try_get_matches_from(["tetrs", "--width", "12"])
        .unwrap();
    assert!(init(&matches).is_err());
}

#[test]
fn base_layer_needs_the_arguments_types() {
    let matches = Command::new("tetrs")
        .arg(Arg::new(CONFIG).long("config").default_value("game.toml"))
        .try_get_matches_from(["tetrs"])
        .unwrap();
    assert_eq!(init(&matches), Err(BaseError::Mismatch));
}
