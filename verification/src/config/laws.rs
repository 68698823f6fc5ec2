//! The laws of precedence: which source decides a setting when several
//! supply a value.

use crate::command::based;
use crate::config::file::{merged, overridden, FileConfig};
use crate::config::{base_of, BaseError, Config, Setter, Value, ValueOrigin};
use std::path::PathBuf;
use vstd::prelude::*;

verus! {

/// What one setting resolves to from all four sources: the base layer of
/// command line, environment and default, weighed against the file at `path`.
pub open spec fn resolved<T>(
    command: Option<T>,
    environment: Option<T>,
    file: Option<T>,
    default: T,
    path: PathBuf,
) -> Value<T> {
    overridden(based(command, environment, default), file, path)
}

/// Whether the source `setter` supplies a value for the setting.
pub open spec fn supplies<T>(
    setter: Setter,
    command: Option<T>,
    environment: Option<T>,
    file: Option<T>,
    path: PathBuf,
) -> bool {
    match setter {
        Setter::Default => true,
        Setter::Environment => environment is Some,
        Setter::File(origin) => file is Some && origin == path,
        Setter::Command => command is Some,
    }
}

/// The value that the source `setter` supplies for the setting.
pub open spec fn supplied<T>(
    setter: Setter,
    command: Option<T>,
    environment: Option<T>,
    file: Option<T>,
    default: T,
) -> T {
    match setter {
        Setter::Default => default,
        Setter::Environment => environment->0,
        Setter::File(_) => file->0,
        Setter::Command => command->0,
    }
}

/// The origin that an argument parser reports for a base layer decided as
/// `based` decides it.
pub open spec fn origin_of<T>(command: Option<T>, environment: Option<T>) -> ValueOrigin {
    if command is Some {
        ValueOrigin::CommandLine
    } else if environment is Some {
        ValueOrigin::EnvVariable
    } else {
        ValueOrigin::DefaultValue
    }
}

/// A setting that no source supplies resolves to the compiled-in default,
/// set by `Default`.
pub proof fn default_when_unset<T>(default: T, path: PathBuf)
    ensures
        resolved::<T>(None, None, None, default, path) == (Value {
            value: default,
            set_by: Setter::Default,
        }),
{
}

/// A setting that the environment alone supplies resolves to the
/// environment's value, set by `Environment`.
pub proof fn environment_alone<T>(environment: T, default: T, path: PathBuf)
    ensures
        resolved(None, Some(environment), None, default, path) == (Value {
            value: environment,
            set_by: Setter::Environment,
        }),
{
}

/// Where the environment and the file supply a value and the command line
/// does not, the file's value wins, set by `File` with the file's path.
pub proof fn file_over_environment<T>(environment: T, file: T, default: T, path: PathBuf)
    ensures
        resolved(None, Some(environment), Some(file), default, path) == (Value {
            value: file,
            set_by: Setter::File(path),
        }),
{
}

/// Where the command line and the file supply a value, the command line's
/// wins, set by `Command`, whatever the environment says.
pub proof fn command_over_file<T>(
    command: T,
    environment: Option<T>,
    file: T,
    default: T,
    path: PathBuf,
)
    ensures
        resolved(Some(command), environment, Some(file), default, path) == (Value {
            value: command,
            set_by: Setter::Command,
        }),
{
}

/// A setting is decided by the source of highest rank among those that
/// supply a value for it, and holds that source's value.
pub proof fn highest_source_decides<T>(
    command: Option<T>,
    environment: Option<T>,
    file: Option<T>,
    default: T,
    path: PathBuf,
)
    ensures
        supplies(
            resolved(command, environment, file, default, path).set_by,
            command,
            environment,
            file,
            path,
        ),
        forall|other: Setter| #[trigger]
            supplies(other, command, environment, file, path) ==> other.rank() <= resolved(
                command,
                environment,
                file,
                default,
                path,
            ).set_by.rank(),
        resolved(command, environment, file, default, path).value == supplied(
            resolved(command, environment, file, default, path).set_by,
            command,
            environment,
            file,
            default,
        ),
{
}

/// A parser that decides the base layer as `based` does, and reports the
/// origin accordingly, yields the very setting that `based` gives.
pub proof fn parsed_origin_agrees_with_base_layer<T>(
    command: Option<T>,
    environment: Option<T>,
    default: T,
)
    ensures
        base_of(Some(based(command, environment, default).value), Some(origin_of(command, environment)))
            == Ok::<Value<T>, BaseError>(based(command, environment, default)),
{
}

/// A file that is silent on a setting leaves it as the base layer resolved
/// it.
pub proof fn silent_file_keeps_base<T>(base: Value<T>, path: PathBuf)
    ensures
        overridden(base, None, path) == base,
{
}

/// Weighing the same file twice changes nothing.
pub proof fn override_is_idempotent<T>(base: Value<T>, file: Option<T>, path: PathBuf)
    ensures
        overridden(overridden(base, file, path), file, path) == overridden(base, file, path),
{
}

/// A document that names no setting leaves every setting as the base layer
/// resolved it.
pub proof fn silent_document_keeps_base(base: Config, file: FileConfig)
    requires
        file.debug is None,
        file.colour is None,
        file.difficulty is None,
        file.no_hold is None,
        file.limit is None,
        file.width is None,
        file.height is None,
    ensures
        merged(base, &file) == base,
{
}

/// No document changes a setting that the command line set.
pub proof fn command_line_survives_any_document(base: Config, file: FileConfig)
    ensures
        base.debug.set_by is Command ==> merged(base, &file).debug == base.debug,
        base.colour.set_by is Command ==> merged(base, &file).colour == base.colour,
        base.difficulty.set_by is Command ==> merged(base, &file).difficulty == base.difficulty,
        base.no_hold.set_by is Command ==> merged(base, &file).no_hold == base.no_hold,
        base.limit.set_by is Command ==> merged(base, &file).limit == base.limit,
        base.width.set_by is Command ==> merged(base, &file).width == base.width,
        base.height.set_by is Command ==> merged(base, &file).height == base.height,
{
}

/// No document changes the path of the configuration file: the file cannot
/// move itself.
pub proof fn document_keeps_its_path(base: Config, file: FileConfig)
    ensures
        merged(base, &file).config == base.config,
{
}

} // verus!
