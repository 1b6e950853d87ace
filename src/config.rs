//! The run configuration, resolved from the invocation's tokens.
use vstd::prelude::*;
use crate::search::{found, search_lines, views};

verus! {

/// An argument that the invocation must carry.
#[derive(Clone, Copy, Debug, PartialEq, Eq, Structural)]
pub enum Field {
    /// The text to look for.
    Query,
    /// What to read the text body from.
    Source,
}

impl Field {
    /// The argument's name as it is reported.
    pub fn name(&self) -> (r: &'static str)
        ensures
            r@ == field_name(*self),
    {
        match self {
            Field::Query => "query",
            Field::Source => "source",
        }
    }
}

/// The name that each argument is reported under.
pub open spec fn field_name(f: Field) -> Seq<char> {
    match f {
        Field::Query => "query"@,
        Field::Source => "source"@,
    }
}

/// Why a run could not go ahead.
#[derive(Clone, Debug, PartialEq, Eq)]
pub enum Error {
    /// An argument was not given.
    MissingArgument(Field),
    /// The text body could not be read; holds the cause as it was reported.
    IoFailure(String),
}

impl Error {
    /// A message for the user: which argument is missing, or the cause of
    /// the failed read as it was reported.
    pub fn message(&self) -> (r: String)
        ensures
            r@ == error_message(*self),
    {
        match self {
            Error::MissingArgument(Field::Query) => String::from_str("Didn't get a query string"),
            Error::MissingArgument(Field::Source) => String::from_str("Didn't get a filename"),
            Error::IoFailure(cause) => cause.clone(),
        }
    }
}

/// The message that describes each error.
pub open spec fn error_message(e: Error) -> Seq<char> {
    match e {
        Error::MissingArgument(Field::Query) => "Didn't get a query string"@,
        Error::MissingArgument(Field::Source) => "Didn't get a filename"@,
        Error::IoFailure(cause) => cause@,
    }
}

/// What one run searches for, where, and under which case policy.
#[derive(Clone, Debug, PartialEq, Eq)]
pub struct Config {
    pub query: String,
    pub filename: String,
    pub case_sensitive: bool,
}

/// What resolving `args` gives: the first token names the program and is
/// skipped, the second is the query and the third the source; the search is
/// case-sensitive unless the case-insensitive switch is set.
pub open spec fn resolved(args: Seq<String>, case_insensitive_set: bool) -> Result<Config, Error> {
    if args.len() < 2 {
        Err(Error::MissingArgument(Field::Query))
    } else if args.len() < 3 {
        Err(Error::MissingArgument(Field::Source))
    } else {
        Ok(Config { query: args[1], filename: args[2], case_sensitive: !case_insensitive_set })
    }
}

impl Config {
    /// Resolves the configuration from the invocation's tokens (the program's
    /// name first) and from whether the case-insensitive switch is set in the
    /// environment, whatever its value. Tokens after the third are ignored.
    pub fn new(args: Vec<String>, case_insensitive_set: bool) -> (r: Result<Config, Error>)
        ensures
            r == resolved(args@, case_insensitive_set),
    {
        if args.len() < 2 {
            return Err(Error::MissingArgument(Field::Query));
        }
        if args.len() < 3 {
            return Err(Error::MissingArgument(Field::Source));
        }
        let query = args[1].clone();
        let filename = args[2].clone();
        Ok(Config { query, filename, case_sensitive: !case_insensitive_set })
    }

    /// The lines of `contents` that this configuration's query picks out,
    /// under its case policy, in the order they stand in `contents`.
    pub fn matching_lines<'a>(&self, contents: &'a str) -> (r: Vec<&'a str>)
        ensures
            views(r@) == found(self.query@, contents@, self.case_sensitive),
    {
        search_lines(self.query.as_str(), contents, self.case_sensitive)
    }
}

/// Resolves the configuration; see `Config::new`.
pub fn parse_config(args: Vec<String>, case_insensitive_set: bool) -> (r: Result<Config, Error>)
    ensures
        r == resolved(args@, case_insensitive_set),
{
    Config::new(args, case_insensitive_set)
}

} // verus!
