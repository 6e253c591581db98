//! Where a configuration value comes from: a file in the configuration
//! directory when one is set, the process environment otherwise.

use vstd::prelude::*;
use vstd::string::StringExecFns;

verus! {

/// The configuration directory. An empty path means that no directory is set
/// and every value comes from the environment.
pub struct Config {
    pub filepath: String,
}

impl Config {
    /// Whether values are looked up in files first.
    pub open spec fn has_directory(&self) -> bool {
        self.filepath@.len() != 0
    }

    /// The value that a lookup settles on, given what the file and the
    /// environment hold: the file's content where a directory is set and the
    /// file could be read, the environment's value in every other case.
    pub open spec fn resolve(
        &self,
        from_file: Option<Seq<char>>,
        from_env: Option<Seq<char>>,
    ) -> Option<Seq<char>> {
        if self.has_directory() && from_file is Some {
            from_file
        } else {
            from_env
        }
    }

    /// A configuration over the directory that the environment names, or over
    /// no directory when it names none.
    pub fn init(config_directory: Option<String>) -> (config: Self)
        ensures
            config.filepath@ == match config_directory {
                Some(path) => path@,
                None => Seq::<char>::empty(),
            },
    {
        match config_directory {
            Some(path) => Config { filepath: path },
            None => Config { filepath: String::new() },
        }
    }

    /// Whether a lookup reads a file before it turns to the environment.
    pub fn reads_file(&self) -> (reads: bool)
        ensures
            reads == self.has_directory(),
    {
        !self.filepath.as_str().is_empty()
    }

    /// Path of the file that holds the value called `name`: the directory's
    /// path with the name appended, nothing in between.
    pub fn config_file_path(&self, name: &str) -> (path: String)
        ensures
            path@ == self.filepath@ + name@,
    {
        self.filepath.clone().concat(name)
    }

    /// The value of a lookup. `from_file` is the content of the file at
    /// `config_file_path`, or `None` where it could not be read; `from_env`
    /// is the value of the environment variable, or `None` where it is not
    /// set. `None` comes back exactly when neither source has the value.
    pub fn get_config(&self, from_file: Option<String>, from_env: Option<String>) -> (value:
        Option<String>)
        ensures
            option_text(value) == self.resolve(option_text(from_file), option_text(from_env)),
    {
        if self.filepath.as_str().is_empty() {
            return from_env;
        }
        match from_file {
            Some(content) => Some(content),
            None => from_env,
        }
    }
}

/// The text of an optional string.
pub open spec fn option_text(value: Option<String>) -> Option<Seq<char>> {
    match value {
        Some(text) => Some(text@),
        None => None,
    }
}

} // verus!
