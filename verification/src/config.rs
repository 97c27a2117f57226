//! What the handler is configured with.

use vstd::prelude::*;

verus! {

/// The two identifiers that the surroundings supply: the table that holds
/// the counters, and the downstream handler.
#[derive(Clone, Debug, PartialEq, Eq)]
pub struct Config {
    pub table_name: String,
    pub downstream_function_name: String,
}

/// A configuration as contracts speak of it.
pub struct ConfigView {
    pub table_name: Seq<char>,
    pub downstream_function_name: Seq<char>,
}

impl View for Config {
    type V = ConfigView;

    open spec fn view(&self) -> ConfigView {
        ConfigView {
            table_name: self.table_name@,
            downstream_function_name: self.downstream_function_name@,
        }
    }
}

/// An identifier that the configuration lacks.
#[derive(Clone, Copy, Debug, PartialEq, Eq, Structural, Hash)]
pub enum ConfigError {
    MissingTableName,
    MissingDownstreamFunctionName,
}

impl Config {
    /// Builds the configuration from the two identifiers as the surroundings
    /// hold them. Both are required: the table's name is looked at first.
    pub fn from_values(table_name: Option<String>, downstream_function_name: Option<String>) -> (r:
        Result<Config, ConfigError>)
        ensures
            match r {
                Ok(c) => table_name == Some(c.table_name) && downstream_function_name == Some(
                    c.downstream_function_name,
                ),
                Err(e) => match e {
                    ConfigError::MissingTableName => table_name is None,
                    ConfigError::MissingDownstreamFunctionName => table_name is Some
                        && downstream_function_name is None,
                },
            },
    {
        match table_name {
            Some(table_name) => match downstream_function_name {
                Some(downstream_function_name) => Ok(
                    Config { table_name, downstream_function_name },
                ),
                None => Err(ConfigError::MissingDownstreamFunctionName),
            },
            None => Err(ConfigError::MissingTableName),
        }
    }
}

} // verus!
