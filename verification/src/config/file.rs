//! The file layer: what the configuration file says of a setting, weighed
//! against what the base layer resolved.

use crate::config::{Config, Setter, TetrsColour, TetrsDifficulty, Value};
use std::path::PathBuf;
use vstd::prelude::*;
use vstd::string::StringExecFns;

verus! {

/// What the configuration file says: for each setting a candidate, or
/// nothing.
#[derive(Debug, Clone, PartialEq, Eq)]
pub struct FileConfig {
    pub debug: Option<u8>,
    pub colour: Option<TetrsColour>,
    pub difficulty: Option<TetrsDifficulty>,
    pub no_hold: Option<bool>,
    pub limit: Option<u16>,
    pub width: Option<u8>,
    pub height: Option<u8>,
}

/// What came of reading and decoding the configuration file.
#[derive(Debug, Clone, PartialEq, Eq)]
pub enum FileOutcome {
    /// The file could not be read: it has no say.
    Unreadable,
    /// The file was read and could not be decoded; the decoder's diagnostic.
    Malformed(String),
    /// The file was read and decoded.
    Decoded(FileConfig),
}

/// A configuration file that could not be decoded. No settings come with it.
#[derive(Debug, Clone, PartialEq, Eq)]
pub struct LoadError {
    /// The decoder's diagnostic.
    pub diagnostic: String,
}

impl LoadError {
    /// The status that a run ends with when its file cannot be decoded.
    pub fn exit_code(&self) -> (code: i32)
        ensures
            code == 1,
    {
        1
    }
}

/// Where the configuration file is looked for when nothing names it:
/// `tetrs.toml` in the configuration directory.
pub open spec fn default_location(directory: Seq<char>) -> Seq<char> {
    directory + "/tetrs.toml"@
}

/// Writes the path at which the configuration file is looked for when
/// nothing names it.
pub fn default_path(directory: &str) -> (path: String)
    ensures
        path@ == default_location(directory@),
{
    let mut path = String::from_str(directory);
    path.append("/tetrs.toml");
    path
}

/// A file's candidate for a setting, seen through a reference.
pub open spec fn borrowed<T>(candidate: &Option<T>) -> Option<&T> {
    match candidate {
        Some(value) => Some(value),
        None => None,
    }
}

/// What a setting resolves to once the file at `path` has had its say: the
/// base where the file is silent, the base where the command line set it,
/// else the file's candidate, set by the file.
pub open spec fn overridden<T>(base: Value<T>, candidate: Option<T>, path: PathBuf) -> Value<T> {
    match candidate {
        None => base,
        Some(value) => if base.set_by is Command {
            base
        } else {
            Value { value, set_by: Setter::File(path) }
        },
    }
}

/// Weighs the file's candidate for one setting against its base.
pub fn compare<'a, T>(base: Value<&'a T>, conf: &'a Option<T>, path: &'a PathBuf) -> (resolved:
    Value<&'a T>)
    ensures
        resolved == overridden(base, borrowed(conf), *path),
{
    match conf {
        None => base,
        Some(value) => match base.set_by {
            Setter::Command => base,
            _ => Value { value, set_by: Setter::File(path.clone()) },
        },
    }
}

/// The settings once the file's document has had its say on each of them but
/// the path of the file itself, which stays as the base layer resolved it.
pub open spec fn merged<'a>(base: Config<'a>, file: &'a FileConfig) -> Config<'a> {
    let path = *base.config.value;
    Config {
        config: base.config,
        debug: overridden(base.debug, borrowed(&file.debug), path),
        colour: overridden(base.colour, borrowed(&file.colour), path),
        difficulty: overridden(base.difficulty, borrowed(&file.difficulty), path),
        no_hold: overridden(base.no_hold, borrowed(&file.no_hold), path),
        limit: overridden(base.limit, borrowed(&file.limit), path),
        width: overridden(base.width, borrowed(&file.width), path),
        height: overridden(base.height, borrowed(&file.height), path),
    }
}

/// What a run resolves to, by what came of its configuration file: the base
/// layer alone where the file could not be read, nothing but the diagnostic
/// where it could not be decoded, else the base layer merged with it.
pub open spec fn loaded<'a>(base: Config<'a>, file: &'a FileOutcome) -> Result<
    Config<'a>,
    LoadError,
> {
    match file {
        FileOutcome::Unreadable => Ok(base),
        FileOutcome::Malformed(diagnostic) => Err(LoadError { diagnostic: *diagnostic }),
        FileOutcome::Decoded(document) => Ok(merged(base, document)),
    }
}

/// Weighs the file's document against the base layer, setting by setting.
/// The path of the file is not among them: the file cannot move itself.
pub fn merge<'a>(base: Config<'a>, file: &'a FileConfig) -> (resolved: Config<'a>)
    ensures
        resolved == merged(base, file),
        resolved.config == base.config,
        base.well_formed() ==> resolved.well_formed(),
{
    let path = base.config.value;
    Config {
        config: base.config,
        debug: compare(base.debug, &file.debug, path),
        colour: compare(base.colour, &file.colour, path),
        difficulty: compare(base.difficulty, &file.difficulty, path),
        no_hold: compare(base.no_hold, &file.no_hold, path),
        limit: compare(base.limit, &file.limit, path),
        width: compare(base.width, &file.width, path),
        height: compare(base.height, &file.height, path),
    }
}

/// Resolves the run's settings from the base layer and from what came of
/// reading and decoding the configuration file.
pub fn load_config<'a>(base: Config<'a>, file: &'a FileOutcome) -> (resolved: Result<
    Config<'a>,
    LoadError,
>)
    ensures
        resolved == loaded(base, file),
        *file is Unreadable ==> resolved == Ok::<Config, LoadError>(base),
        *file is Malformed ==> resolved is Err,
        base.well_formed() ==> (resolved matches Ok(config) ==> config.well_formed()),
{
    match file {
        FileOutcome::Unreadable => Ok(base),
        FileOutcome::Malformed(diagnostic) => Err(LoadError { diagnostic: diagnostic.clone() }),
        FileOutcome::Decoded(document) => Ok(merge(base, document)),
    }
}

} // verus!
