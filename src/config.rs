//! What one run is asked to do: the query, the file to search, and whether
//! case is ignored; built from the command-line arguments.
use vstd::prelude::*;

use crate::search::{matching_lines, search, search_case_sensitive};
use crate::text::views_of;

verus! {

/// The settings of one search: `query` is looked for in the file `filename`,
/// with case ignored when `ignore_case` is set.
pub struct Config {
    query: String,
    filename: String,
    ignore_case: bool,
}

/// The message when no query argument was given.
pub const MISSING_QUERY: &'static str = "Didn't get a query string";

/// The message when no file name argument was given.
pub const MISSING_FILENAME: &'static str = "Didn't get file name";

impl Config {
    /// The query, as characters.
    pub closed spec fn spec_query(&self) -> Seq<char> {
        self.query@
    }

    /// The file name, as characters.
    pub closed spec fn spec_filename(&self) -> Seq<char> {
        self.filename@
    }

    /// Whether case is ignored.
    pub closed spec fn spec_ignore_case(&self) -> bool {
        self.ignore_case
    }

    /// Builds the settings from the command-line arguments, the first of which
    /// is the program's own name and is skipped. The second is the query and
    /// the third the file name; any further ones are ignored. `ignore_case`
    /// is passed in by the caller, who decides it from the environment.
    pub fn new(args: Vec<String>, ignore_case: bool) -> (r: Result<Config, &'static str>)
        ensures
            args@.len() < 2 ==> r == Err::<Config, &'static str>(MISSING_QUERY),
            args@.len() == 2 ==> r == Err::<Config, &'static str>(MISSING_FILENAME),
            args@.len() >= 3 <==> r is Ok,
            r matches Ok(c) ==> {
                &&& c.spec_query() == args@[1]@
                &&& c.spec_filename() == args@[2]@
                &&& c.spec_ignore_case() == ignore_case
            },
    {
        let mut args = args;
        if args.len() < 2 {
            return Err(MISSING_QUERY);
        }
        if args.len() < 3 {
            return Err(MISSING_FILENAME);
        }
        let filename = args.remove(2);
        let query = args.remove(1);
        Ok(Config { query, filename, ignore_case })
    }

    /// The query.
    pub fn query(&self) -> (r: &str)
        ensures
            r@ == self.spec_query(),
    {
        self.query.as_str()
    }

    /// The name of the file to search.
    pub fn filename(&self) -> (r: &str)
        ensures
            r@ == self.spec_filename(),
    {
        self.filename.as_str()
    }

    /// Whether case is ignored.
    pub fn ignore_case(&self) -> (r: bool)
        ensures
            r == self.spec_ignore_case(),
    {
        self.ignore_case
    }

    /// The lines of `contents` that match the query, in the mode these
    /// settings ask for, in their original order.
    pub fn search_in<'a>(&self, contents: &'a str) -> (r: Vec<&'a str>)
        ensures
            views_of(r@) == matching_lines(self.spec_query(), contents@, self.spec_ignore_case()),
    {
        if self.ignore_case {
            search(self.query.as_str(), contents)
        } else {
            search_case_sensitive(self.query.as_str(), contents)
        }
    }
}

} // verus!
