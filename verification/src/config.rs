//! What one invocation was asked to do.

use vstd::prelude::*;
use crate::error::RenameError;
use crate::naming::{format_arg_to_enum, parsed_format, Format};

verus! {

/// The account, the direction and whether to ask before each rename. It is
/// made once and never changed.
#[derive(Debug, PartialEq, Eq)]
pub struct Config {
    username: String,
    rule: Format,
    interactive: bool,
}

/// A `Config` with its text as a sequence of characters.
#[verifier::ext_equal]
pub struct ConfigView {
    pub username: Seq<char>,
    pub rule: Format,
    pub interactive: bool,
}

impl View for Config {
    type V = ConfigView;

    closed spec fn view(&self) -> ConfigView {
        ConfigView { username: self.username@, rule: self.rule, interactive: self.interactive }
    }
}

impl Config {
    /// A configuration with a direction already chosen.
    pub fn new(username: String, rule: Format, interactive: bool) -> (config: Config)
        ensures
            config@ == (ConfigView { username: username@, rule, interactive }),
    {
        Config { username, rule, interactive }
    }

    /// A configuration from command-line values. It is refused, as an invalid
    /// argument, exactly when `format` spells neither direction.
    pub fn parse(username: String, format: &str, interactive: bool) -> (config: Result<
        Config,
        RenameError,
    >)
        ensures
            match parsed_format(format@) {
                Some(rule) => config is Ok && config->Ok_0@ == (ConfigView {
                    username: username@,
                    rule,
                    interactive,
                }),
                None => config == Err::<Config, RenameError>(RenameError::InvalidArgument),
            },
    {
        match format_arg_to_enum(format) {
            Ok(rule) => Ok(Config::new(username, rule, interactive)),
            Err(error) => Err(error),
        }
    }

    /// The account whose repositories are renamed.
    pub fn username(&self) -> (username: &str)
        ensures
            username@ == self@.username,
    {
        self.username.as_str()
    }

    /// The direction of the renaming.
    pub fn rule(&self) -> (rule: Format)
        ensures
            rule == self@.rule,
    {
        self.rule
    }

    /// Whether each rename waits for the user's consent.
    pub fn interactive(&self) -> (interactive: bool)
        ensures
            interactive == self@.interactive,
    {
        self.interactive
    }
}

impl Clone for Config {
    fn clone(&self) -> (copy: Config)
        ensures
            copy@ == self@,
    {
        Config { username: self.username.clone(), rule: self.rule, interactive: self.interactive }
    }
}

} // verus!
