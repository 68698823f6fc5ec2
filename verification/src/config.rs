//! The settings, each paired with the source that decided it, and the base
//! layer as the argument parser resolved it.

pub mod file;
pub mod laws;
pub mod report;

use crate::outside::{
    defined, id_defined, lent, lookup_bool, lookup_colour, lookup_difficulty, lookup_path,
    lookup_u16, lookup_u8, matched_bool, matched_colour, matched_difficulty, matched_path,
    matched_source, matched_u16, matched_u8, source,
};
use clap::ArgMatches;
use std::path::PathBuf;
use vstd::prelude::*;

verus! {

/// The source that decided a setting.
#[derive(Debug, Clone, PartialEq, Eq)]
pub enum Setter {
    /// The compiled-in default.
    Default,
    /// A variable of the environment.
    Environment,
    /// The configuration file at this path.
    File(PathBuf),
    /// An argument of the command line.
    Command,
}

impl Setter {
    /// The rank of a source in precedence: the higher rank wins.
    pub open spec fn rank(self) -> nat {
        match self {
            Setter::Default => 0,
            Setter::Environment => 1,
            Setter::File(_) => 2,
            Setter::Command => 3,
        }
    }
}

/// A resolved value together with the source that supplied it.
#[derive(Debug, Clone, PartialEq, Eq)]
pub struct Value<T> {
    /// The resolved value.
    pub value: T,
    /// The source that supplied it.
    pub set_by: Setter,
}

/// Where colours are shown.
#[derive(Debug, Copy, Clone, PartialEq, Eq, PartialOrd, Ord)]
pub enum TetrsColour {
    Never,
    Falling,
    Line,
    Always,
}

/// How hard the game is.
#[derive(Debug, Copy, Clone, PartialEq, Eq, PartialOrd, Ord)]
pub enum TetrsDifficulty {
    Noob,
    Easy,
    Normal,
    Hard,
    Expert,
    Incremental,
}

/// The settings of one run, each with the source that decided it.
#[derive(Debug, Clone, PartialEq, Eq)]
pub struct Config<'a> {
    /// The path of the configuration file.
    pub config: Value<&'a PathBuf>,
    /// How much debugging output is asked for.
    pub debug: Value<&'a u8>,
    /// Where colours are shown.
    pub colour: Value<&'a TetrsColour>,
    /// How hard the game is.
    pub difficulty: Value<&'a TetrsDifficulty>,
    /// Whether holding a tetromino is switched off.
    pub no_hold: Value<&'a bool>,
    /// The number of cleared lines after which the game stops.
    pub limit: Value<&'a u16>,
    /// The board's width in columns.
    pub width: Value<&'a u8>,
    /// The board's height in rows.
    pub height: Value<&'a u8>,
}

/// The argument that holds the path of the configuration file.
pub const CONFIG: &'static str = "config";

/// The argument that counts the requests for debugging output.
pub const DEBUG: &'static str = "debug";

/// The argument that holds the colour mode.
pub const COLOUR: &'static str = "colour";

/// The argument that holds the difficulty.
pub const DIFFICULTY: &'static str = "difficulty";

/// The argument that switches holding off.
pub const NO_HOLD: &'static str = "no-hold";

/// The argument that holds the line limit.
pub const LINE_LIMIT: &'static str = "line-limit";

/// The argument that holds the board's width.
pub const WIDTH: &'static str = "width";

/// The argument that holds the board's height.
pub const HEIGHT: &'static str = "height";

/// Where the argument parser says a value came from.
#[derive(Debug, Clone, Copy, PartialEq, Eq)]
pub enum ValueOrigin {
    /// The argument's default.
    DefaultValue,
    /// The argument's environment variable.
    EnvVariable,
    /// The command line.
    CommandLine,
    /// An origin that this library does not know.
    Unknown,
}

/// Why the base layer could not resolve a setting.
#[derive(Debug, Clone, Copy, PartialEq, Eq)]
pub enum BaseError {
    /// The argument is not defined, or holds a value of another type.
    Mismatch,
    /// The argument has no value, not even a default.
    Missing,
    /// The parser reports an origin outside the three of the base layer.
    UnexpectedSource,
}

/// The setter that stands for an origin reported by the argument parser, if
/// it is one of the three that the base layer knows.
pub open spec fn origin_setter(origin: Option<ValueOrigin>) -> Option<Setter> {
    match origin {
        Some(ValueOrigin::CommandLine) => Some(Setter::Command),
        Some(ValueOrigin::EnvVariable) => Some(Setter::Environment),
        Some(ValueOrigin::DefaultValue) => Some(Setter::Default),
        _ => None,
    }
}

/// The base value made of what the parser found for an argument and the
/// origin it reports.
pub open spec fn base_of<T>(found: Option<T>, origin: Option<ValueOrigin>) -> Result<
    Value<T>,
    BaseError,
> {
    match found {
        None => Err(BaseError::Missing),
        Some(value) => match origin_setter(origin) {
            Some(set_by) => Ok(Value { value, set_by }),
            None => Err(BaseError::UnexpectedSource),
        },
    }
}

/// Gives the setter that stands for the parser's origin.
pub fn setter_of(origin: Option<ValueOrigin>) -> (setter: Option<Setter>)
    ensures
        setter == origin_setter(origin),
{
    match origin {
        Some(ValueOrigin::CommandLine) => Some(Setter::Command),
        Some(ValueOrigin::EnvVariable) => Some(Setter::Environment),
        Some(ValueOrigin::DefaultValue) => Some(Setter::Default),
        _ => None,
    }
}

/// Pairs what the parser found for an argument with the setter that its
/// origin stands for.
pub fn base_value<T>(found: Option<T>, origin: Option<ValueOrigin>) -> (resolved: Result<
    Value<T>,
    BaseError,
>)
    ensures
        resolved == base_of(found, origin),
{
    match found {
        None => Err(BaseError::Missing),
        Some(value) => match setter_of(origin) {
            Some(set_by) => Ok(Value { value, set_by }),
            None => Err(BaseError::UnexpectedSource),
        },
    }
}

/// A type of value that the parsed arguments hold for a setting.
pub trait Setting: Sized {
    /// What the parsed arguments find for the argument `id` as a value of
    /// this type: `None` where the argument is defined otherwise than it is
    /// read, else the value that it holds, if it holds one.
    spec fn matched(args: ArgMatches, id: Seq<char>) -> Option<Option<Self>>;

    /// Looks the argument `id` up in the parsed arguments.
    fn find<'a>(args: &'a ArgMatches, id: &str) -> (found: Option<Option<&'a Self>>)
        ensures
            found == lent(Self::matched(*args, id@)),
    ;
}

impl Setting for PathBuf {
    open spec fn matched(args: ArgMatches, id: Seq<char>) -> Option<Option<Self>> {
        matched_path(args, id)
    }

    fn find<'a>(args: &'a ArgMatches, id: &str) -> (found: Option<Option<&'a Self>>) {
        lookup_path(args, id)
    }
}

impl Setting for u8 {
    open spec fn matched(args: ArgMatches, id: Seq<char>) -> Option<Option<Self>> {
        matched_u8(args, id)
    }

    fn find<'a>(args: &'a ArgMatches, id: &str) -> (found: Option<Option<&'a Self>>) {
        lookup_u8(args, id)
    }
}

impl Setting for u16 {
    open spec fn matched(args: ArgMatches, id: Seq<char>) -> Option<Option<Self>> {
        matched_u16(args, id)
    }

    fn find<'a>(args: &'a ArgMatches, id: &str) -> (found: Option<Option<&'a Self>>) {
        lookup_u16(args, id)
    }
}

impl Setting for bool {
    open spec fn matched(args: ArgMatches, id: Seq<char>) -> Option<Option<Self>> {
        matched_bool(args, id)
    }

    fn find<'a>(args: &'a ArgMatches, id: &str) -> (found: Option<Option<&'a Self>>) {
        lookup_bool(args, id)
    }
}

impl Setting for TetrsColour {
    open spec fn matched(args: ArgMatches, id: Seq<char>) -> Option<Option<Self>> {
        matched_colour(args, id)
    }

    fn find<'a>(args: &'a ArgMatches, id: &str) -> (found: Option<Option<&'a Self>>) {
        lookup_colour(args, id)
    }
}

impl Setting for TetrsDifficulty {
    open spec fn matched(args: ArgMatches, id: Seq<char>) -> Option<Option<Self>> {
        matched_difficulty(args, id)
    }

    fn find<'a>(args: &'a ArgMatches, id: &str) -> (found: Option<Option<&'a Self>>) {
        lookup_difficulty(args, id)
    }
}

/// The setting that the parsed arguments hold under the argument `id`: the
/// value found there, set by the source that the parser's origin stands for.
/// An argument that is not defined, or not with this type, is a mismatch.
pub open spec fn read<'a, T: Setting>(args: ArgMatches, id: &str) -> Result<
    Value<&'a T>,
    BaseError,
> {
    if !id_defined(args, id@) {
        Err(BaseError::Mismatch)
    } else {
        match lent(T::matched(args, id@)) {
            None => Err(BaseError::Mismatch),
            Some(found) => base_of(found, matched_source(args, id@)),
        }
    }
}

/// Reads the setting held by the argument `id` out of the parsed arguments.
pub fn to_value<'a, T: Setting>(args: &'a ArgMatches, id: &'a str) -> (resolved: Result<
    Value<&'a T>,
    BaseError,
>)
    ensures
        resolved == read::<T>(*args, id),
        resolved matches Ok(setting) ==> sourced(*args, id) == Some(setting.set_by),
{
    if !defined(args, id) {
        return Err(BaseError::Mismatch);
    }
    match T::find(args, id) {
        None => Err(BaseError::Mismatch),
        Some(found) => base_value(found, source(args, id)),
    }
}

/// The setter that the parsed arguments name for the argument `id`, if its
/// origin is one of the base layer's.
pub open spec fn sourced(args: ArgMatches, id: &str) -> Option<Setter> {
    origin_setter(matched_source(args, id@))
}

/// The parsed arguments define every setting's argument.
pub open spec fn all_defined(args: ArgMatches) -> bool {
    &&& id_defined(args, CONFIG@)
    &&& id_defined(args, DEBUG@)
    &&& id_defined(args, COLOUR@)
    &&& id_defined(args, DIFFICULTY@)
    &&& id_defined(args, NO_HOLD@)
    &&& id_defined(args, LINE_LIMIT@)
    &&& id_defined(args, WIDTH@)
    &&& id_defined(args, HEIGHT@)
}

/// The parsed arguments name an origin of the base layer for every setting.
pub open spec fn all_sourced(args: ArgMatches) -> bool {
    &&& sourced(args, CONFIG) is Some
    &&& sourced(args, DEBUG) is Some
    &&& sourced(args, COLOUR) is Some
    &&& sourced(args, DIFFICULTY) is Some
    &&& sourced(args, NO_HOLD) is Some
    &&& sourced(args, LINE_LIMIT) is Some
    &&& sourced(args, WIDTH) is Some
    &&& sourced(args, HEIGHT) is Some
}

/// A setter that is the file at `path` if it is a file at all.
pub open spec fn names_file(setter: Setter, path: PathBuf) -> bool {
    setter is File ==> setter == Setter::File(path)
}

impl<'a> Config<'a> {
    /// No setting was decided by a file.
    pub open spec fn is_base(self) -> bool {
        &&& !(self.config.set_by is File)
        &&& !(self.debug.set_by is File)
        &&& !(self.colour.set_by is File)
        &&& !(self.difficulty.set_by is File)
        &&& !(self.no_hold.set_by is File)
        &&& !(self.limit.set_by is File)
        &&& !(self.width.set_by is File)
        &&& !(self.height.set_by is File)
    }

    /// The path of the configuration file was not decided by a file, and
    /// every setting that a file decided names the file at that path.
    pub open spec fn well_formed(self) -> bool {
        &&& !(self.config.set_by is File)
        &&& names_file(self.debug.set_by, *self.config.value)
        &&& names_file(self.colour.set_by, *self.config.value)
        &&& names_file(self.difficulty.set_by, *self.config.value)
        &&& names_file(self.no_hold.set_by, *self.config.value)
        &&& names_file(self.limit.set_by, *self.config.value)
        &&& names_file(self.width.set_by, *self.config.value)
        &&& names_file(self.height.set_by, *self.config.value)
    }

    /// Every setting carries the setter that the parsed arguments name for
    /// its argument.
    pub open spec fn set_as(self, args: ArgMatches) -> bool {
        &&& sourced(args, CONFIG) == Some(self.config.set_by)
        &&& sourced(args, DEBUG) == Some(self.debug.set_by)
        &&& sourced(args, COLOUR) == Some(self.colour.set_by)
        &&& sourced(args, DIFFICULTY) == Some(self.difficulty.set_by)
        &&& sourced(args, NO_HOLD) == Some(self.no_hold.set_by)
        &&& sourced(args, LINE_LIMIT) == Some(self.limit.set_by)
        &&& sourced(args, WIDTH) == Some(self.width.set_by)
        &&& sourced(args, HEIGHT) == Some(self.height.set_by)
    }
}

/// The first failure, in the order in which the base layer is assembled, of
/// the parsed arguments to give a setting.
pub open spec fn failure(args: ArgMatches) -> Option<BaseError> {
    if let Err(error) = read::<PathBuf>(args, CONFIG) {
        Some(error)
    } else if let Err(error) = read::<u8>(args, DEBUG) {
        Some(error)
    } else if let Err(error) = read::<TetrsColour>(args, COLOUR) {
        Some(error)
    } else if let Err(error) = read::<TetrsDifficulty>(args, DIFFICULTY) {
        Some(error)
    } else if let Err(error) = read::<bool>(args, NO_HOLD) {
        Some(error)
    } else if let Err(error) = read::<u16>(args, LINE_LIMIT) {
        Some(error)
    } else if let Err(error) = read::<u8>(args, WIDTH) {
        Some(error)
    } else if let Err(error) = read::<u8>(args, HEIGHT) {
        Some(error)
    } else {
        None
    }
}

/// The settings that the parsed arguments give, where they give them all.
pub open spec fn settings<'a>(args: ArgMatches) -> Config<'a> {
    Config {
        config: read::<PathBuf>(args, CONFIG)->Ok_0,
        debug: read::<u8>(args, DEBUG)->Ok_0,
        colour: read::<TetrsColour>(args, COLOUR)->Ok_0,
        difficulty: read::<TetrsDifficulty>(args, DIFFICULTY)->Ok_0,
        no_hold: read::<bool>(args, NO_HOLD)->Ok_0,
        limit: read::<u16>(args, LINE_LIMIT)->Ok_0,
        width: read::<u8>(args, WIDTH)->Ok_0,
        height: read::<u8>(args, HEIGHT)->Ok_0,
    }
}

/// The base layer that the parsed arguments give: every setting, or the
/// first failure to give one.
pub open spec fn assembled<'a>(args: ArgMatches) -> Result<Config<'a>, BaseError> {
    match failure(args) {
        Some(error) => Err(error),
        None => Ok(settings(args)),
    }
}

/// Assembles the base layer from the parsed arguments: the path of the
/// configuration file first, then every other setting. The settings that it
/// gives carry the setters that the parser's origins stand for, none of them
/// a file.
pub fn init<'a>(args: &'a ArgMatches) -> (base: Result<Config<'a>, BaseError>)
    ensures
        base == assembled(*args),
        base matches Ok(config) ==> {
            &&& all_defined(*args)
            &&& config.set_as(*args)
            &&& config.is_base()
            &&& config.well_formed()
        },
        base == Err::<Config, BaseError>(BaseError::UnexpectedSource) ==> !all_sourced(*args),
        !all_defined(*args) || !all_sourced(*args) ==> base is Err,
{
    let config = to_value::<PathBuf>(args, CONFIG)?;
    let debug = to_value::<u8>(args, DEBUG)?;
    let colour = to_value::<TetrsColour>(args, COLOUR)?;
    let difficulty = to_value::<TetrsDifficulty>(args, DIFFICULTY)?;
    let no_hold = to_value::<bool>(args, NO_HOLD)?;
    let limit = to_value::<u16>(args, LINE_LIMIT)?;
    let width = to_value::<u8>(args, WIDTH)?;
    let height = to_value::<u8>(args, HEIGHT)?;
    Ok(Config { config, debug, colour, difficulty, no_hold, limit, width, height })
}

} // verus!
