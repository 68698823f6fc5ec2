//! The items of `std` and `clap` that the library relies on without proof.

use crate::config::{TetrsColour, TetrsDifficulty, ValueOrigin};
use clap::parser::ValueSource;
use clap::ArgMatches;
use std::path::PathBuf;
use vstd::prelude::*;

verus! {

/// `std::path::PathBuf`, carried through as an opaque value.
#[verifier::external_type_specification]
#[verifier::external_body]
pub struct ExPathBuf(PathBuf);

/// `clap::ArgMatches`, the parsed arguments, carried through as an opaque
/// value.
#[verifier::external_type_specification]
#[verifier::external_body]
pub struct ExArgMatches(ArgMatches);

/// The text that `Path::display` prints for a path.
pub uninterp spec fn path_text(path: PathBuf) -> Seq<char>;

/// The text that the `Debug` formatting of a path prints for it.
pub uninterp spec fn path_debug_text(path: PathBuf) -> Seq<char>;

/// Whether `ArgMatches::try_contains_id` accepts `id` as an argument of the
/// command that was parsed.
pub uninterp spec fn id_defined(matches: ArgMatches, id: Seq<char>) -> bool;

/// What `ArgMatches::try_get_one::<PathBuf>` finds for the argument `id`:
/// `None` where it reports that the argument is defined otherwise than it is
/// read, else the value that the argument holds, if it holds one.
pub uninterp spec fn matched_path(matches: ArgMatches, id: Seq<char>) -> Option<Option<PathBuf>>;

/// What `ArgMatches::try_get_one::<u8>` finds for the argument `id`, as
/// `matched_path` says it for a path.
pub uninterp spec fn matched_u8(matches: ArgMatches, id: Seq<char>) -> Option<Option<u8>>;

/// What `ArgMatches::try_get_one::<u16>` finds for the argument `id`, as
/// `matched_path` says it for a path.
pub uninterp spec fn matched_u16(matches: ArgMatches, id: Seq<char>) -> Option<Option<u16>>;

/// What `ArgMatches::try_get_one::<bool>` finds for the argument `id`, as
/// `matched_path` says it for a path.
pub uninterp spec fn matched_bool(matches: ArgMatches, id: Seq<char>) -> Option<Option<bool>>;

/// What `ArgMatches::try_get_one::<TetrsColour>` finds for the argument
/// `id`, as `matched_path` says it for a path.
pub uninterp spec fn matched_colour(matches: ArgMatches, id: Seq<char>) -> Option<
    Option<TetrsColour>,
>;

/// What `ArgMatches::try_get_one::<TetrsDifficulty>` finds for the argument
/// `id`, as `matched_path` says it for a path.
pub uninterp spec fn matched_difficulty(matches: ArgMatches, id: Seq<char>) -> Option<
    Option<TetrsDifficulty>,
>;

/// What `ArgMatches::value_source` reports as the origin of the argument
/// `id`'s value.
pub uninterp spec fn matched_source(matches: ArgMatches, id: Seq<char>) -> Option<ValueOrigin>;

/// `PathBuf::clone`: the copy equals the path that it was made from.
pub assume_specification[ <PathBuf as Clone>::clone ](path: &PathBuf) -> (copy: PathBuf)
    ensures
        copy == *path,
;

/// Calls `Path::display` and formats what it gives: the result is the
/// path's displayed text, named by `path_text`.
#[verifier::external_body]
pub(crate) fn displayed_path(path: &PathBuf) -> (text: String)
    ensures
        text@ == path_text(*path),
{
    format!("{}", path.display())
}

/// Formats a path with `Debug`: the result is the text named by
/// `path_debug_text`.
#[verifier::external_body]
pub(crate) fn debugged_path(path: &PathBuf) -> (text: String)
    ensures
        text@ == path_debug_text(*path),
{
    format!("{:?}", path)
}

/// Calls `ArgMatches::try_contains_id` and tells whether it accepted the id:
/// the result is named by `id_defined`.
#[verifier::external_body]
pub(crate) fn defined(matches: &ArgMatches, id: &str) -> (known: bool)
    ensures
        known == id_defined(*matches, id@),
{
    matches.try_contains_id(id).is_ok()
}

/// What a lookup found, seen through a reference as the parsed arguments
/// hand it out.
pub open spec fn lent<'a, T>(found: Option<Option<T>>) -> Option<Option<&'a T>> {
    match found {
        Some(Some(value)) => Some(Some(&value)),
        Some(None) => Some(None),
        None => None,
    }
}

/// Calls `ArgMatches::try_get_one::<PathBuf>`, the lookup that reports a
/// mismatch instead of panicking: the result is named by `matched_path`.
#[verifier::external_body]
pub(crate) fn lookup_path<'a>(matches: &'a ArgMatches, id: &str) -> (found: Option<
    Option<&'a PathBuf>,
>)
    ensures
        found == lent(matched_path(*matches, id@)),
{
    matches.try_get_one::<PathBuf>(id).ok()
}

/// Calls `ArgMatches::try_get_one::<u8>`: the result is named by
/// `matched_u8`.
#[verifier::external_body]
pub(crate) fn lookup_u8<'a>(matches: &'a ArgMatches, id: &str) -> (found: Option<Option<&'a u8>>)
    ensures
        found == lent(matched_u8(*matches, id@)),
{
    matches.try_get_one::<u8>(id).ok()
}

/// Calls `ArgMatches::try_get_one::<u16>`: the result is named by
/// `matched_u16`.
#[verifier::external_body]
pub(crate) fn lookup_u16<'a>(matches: &'a ArgMatches, id: &str) -> (found: Option<Option<&'a u16>>)
    ensures
        found == lent(matched_u16(*matches, id@)),
{
    matches.try_get_one::<u16>(id).ok()
}

/// Calls `ArgMatches::try_get_one::<bool>`: the result is named by
/// `matched_bool`.
#[verifier::external_body]
pub(crate) fn lookup_bool<'a>(matches: &'a ArgMatches, id: &str) -> (found: Option<
    Option<&'a bool>,
>)
    ensures
        found == lent(matched_bool(*matches, id@)),
{
    matches.try_get_one::<bool>(id).ok()
}

/// Calls `ArgMatches::try_get_one::<TetrsColour>`: the result is named by
/// `matched_colour`.
#[verifier::external_body]
pub(crate) fn lookup_colour<'a>(matches: &'a ArgMatches, id: &str) -> (found: Option<
    Option<&'a TetrsColour>,
>)
    ensures
        found == lent(matched_colour(*matches, id@)),
{
    matches.try_get_one::<TetrsColour>(id).ok()
}

/// Calls `ArgMatches::try_get_one::<TetrsDifficulty>`: the result is named
/// by `matched_difficulty`.
#[verifier::external_body]
pub(crate) fn lookup_difficulty<'a>(matches: &'a ArgMatches, id: &str) -> (found: Option<
    Option<&'a TetrsDifficulty>,
>)
    ensures
        found == lent(matched_difficulty(*matches, id@)),
{
    matches.try_get_one::<TetrsDifficulty>(id).ok()
}

/// Calls `ArgMatches::value_source`, which panics on an id that the command
/// does not define, and hands its answer over in the library's own
/// vocabulary: the result is named by `matched_source`.
#[verifier::external_body]
pub(crate) fn source(matches: &ArgMatches, id: &str) -> (origin: Option<ValueOrigin>)
    requires
        id_defined(*matches, id@),
    ensures
        origin == matched_source(*matches, id@),
{
    match matches.value_source(id) {
        None => None,
        Some(ValueSource::DefaultValue) => Some(ValueOrigin::DefaultValue),
        Some(ValueSource::EnvVariable) => Some(ValueOrigin::EnvVariable),
        Some(ValueSource::CommandLine) => Some(ValueOrigin::CommandLine),
        Some(_) => Some(ValueOrigin::Unknown),
    }
}

} // verus!
