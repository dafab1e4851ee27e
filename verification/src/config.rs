//! Resolution of the search configuration.
//!
//! A raw argument list and one fact about the environment — whether the
//! case-sensitivity variable is set — resolve to an immutable [`Config`]
//! or to a [`ConfigError`]. Only the variable's presence matters; its value
//! is never inspected, so it does not even reach this module. Resolution
//! reads nothing else: it is a pure function of the argument list and that
//! one bit, which [`resolve_spec`] captures.

use vstd::prelude::*;

verus! {

/// The resolved, immutable parameters of one search invocation.
pub struct Config {
    /// The text to search for.
    pub query: String,
    /// The path of the file whose lines are searched.
    pub filename: String,
    /// True for exact-case matching; false folds case before comparing.
    pub case_sensitive: bool,
}

/// The mathematical content of a [`Config`].
pub ghost struct ConfigView {
    /// The characters of the query.
    pub query: Seq<char>,
    /// The characters of the filename.
    pub filename: Seq<char>,
    /// The case rule.
    pub case_sensitive: bool,
}

impl View for Config {
    type V = ConfigView;

    open spec fn view(&self) -> ConfigView {
        ConfigView { query: self.query@, filename: self.filename@, case_sensitive: self.case_sensitive }
    }
}

/// Why resolution failed. Raised only while resolving, never by the search.
#[derive(Clone, Copy, Debug, PartialEq, Eq, Structural)]
pub enum ConfigError {
    /// The argument list held nothing at all, not even a program name.
    InsufficientArguments,
    /// The argument list ended before the query.
    MissingQuery,
    /// The argument list ended before the filename.
    MissingFilename,
}

impl ConfigError {
    /// A short diagnostic for the user; the variants differ only here.
    pub fn message(&self) -> (r: &'static str)
        ensures
            r@ == match self {
                ConfigError::InsufficientArguments => "not enough arguments"@,
                ConfigError::MissingQuery => "missing query string"@,
                ConfigError::MissingFilename => "missing file name"@,
            },
    {
        match self {
            ConfigError::InsufficientArguments => "not enough arguments",
            ConfigError::MissingQuery => "missing query string",
            ConfigError::MissingFilename => "missing file name",
        }
    }
}

/// What resolution returns for a given argument list and environment bit.
///
/// The first argument is the invoking program's own name and is ignored;
/// the second is the query; the third the filename. The configuration is
/// case-sensitive exactly when the environment variable is absent.
pub open spec fn resolve_spec(args: Seq<Seq<char>>, case_var_present: bool) -> Result<
    ConfigView,
    ConfigError,
> {
    if args.len() == 0 {
        Err(ConfigError::InsufficientArguments)
    } else if args.len() == 1 {
        Err(ConfigError::MissingQuery)
    } else if args.len() == 2 {
        Err(ConfigError::MissingFilename)
    } else {
        Ok(ConfigView { query: args[1], filename: args[2], case_sensitive: !case_var_present })
    }
}

impl Config {
    /// Resolves the argument list into a configuration the caller fully
    /// owns. `case_var_present` is the one environment fact resolution
    /// consumes: whether the designated variable exists at all.
    pub fn new(args: &[String], case_var_present: bool) -> (res: Result<Config, ConfigError>)
        ensures
            res matches Ok(c) ==> Ok::<ConfigView, ConfigError>(c@) == resolve_spec(
                args.deep_view(),
                case_var_present,
            ),
            res matches Err(e) ==> Err::<ConfigView, ConfigError>(e) == resolve_spec(
                args.deep_view(),
                case_var_present,
            ),
            res is Ok <==> args.deep_view().len() >= 3,
    {
        if args.len() == 0 {
            return Err(ConfigError::InsufficientArguments);
        }
        if args.len() == 1 {
            return Err(ConfigError::MissingQuery);
        }
        if args.len() == 2 {
            return Err(ConfigError::MissingFilename);
        }
        let query = args[1].clone();
        let filename = args[2].clone();
        Ok(Config { query, filename, case_sensitive: !case_var_present })
    }
}

/// With fewer than three arguments resolution fails, and fails the same way
/// whatever the environment holds: the failure is decided before the
/// environment bit is looked at, and nothing else is ever consulted.
pub proof fn lemma_insufficient_args_fail(args: Seq<Seq<char>>, env_a: bool, env_b: bool)
    requires
        args.len() < 3,
    ensures
        resolve_spec(args, env_a) is Err,
        resolve_spec(args, env_a) == resolve_spec(args, env_b),
{
}

/// Resolution is deterministic: any two results obtained for the same
/// argument list and the same environment bit are equal. The executable
/// resolver pins its result to `resolve_spec`, so this covers repeated
/// calls to it.
pub proof fn lemma_resolution_deterministic(
    args: Seq<Seq<char>>,
    case_var_present: bool,
    r1: Result<ConfigView, ConfigError>,
    r2: Result<ConfigView, ConfigError>,
)
    requires
        r1 == resolve_spec(args, case_var_present),
        r2 == resolve_spec(args, case_var_present),
    ensures
        r1 == r2,
{
}

/// When the designated variable is present, a well-formed argument list
/// resolves to a case-insensitive configuration. The variable's value has
/// no say: presence is the only fact resolution receives.
pub proof fn lemma_env_var_forces_case_insensitive(args: Seq<Seq<char>>)
    requires
        args.len() >= 3,
    ensures
        resolve_spec(args, true) is Ok,
        !resolve_spec(args, true)->Ok_0.case_sensitive,
{
}

/// When the designated variable is absent, a well-formed argument list
/// resolves to a case-sensitive configuration.
pub proof fn lemma_no_env_var_forces_case_sensitive(args: Seq<Seq<char>>)
    requires
        args.len() >= 3,
    ensures
        resolve_spec(args, false) is Ok,
        resolve_spec(args, false)->Ok_0.case_sensitive,
{
}

} // verus!
