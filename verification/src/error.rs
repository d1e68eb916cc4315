use vstd::prelude::*;

verus! {

/// Why a configuration could not be loaded.
///
/// A failure never leaves a partly built table behind: the caller gets either
/// the whole validated configuration or exactly one of these.
#[derive(Debug, Clone, PartialEq, Eq)]
pub enum ConfigError {
    /// The document could not be read at all.
    Io { reason: String },
    /// The text is not a well-formed document.
    Syntax { reason: String },
    /// A `host` or `path` pattern does not compile.
    InvalidPattern { field_name: String, text: String, reason: String, rule_index: Option<usize> },
    /// A field holds no usable value: one that must be given is absent or
    /// empty, or one that is given holds a value of the wrong kind, such as a
    /// number where a string belongs.
    MissingField { field_name: String, rule_index: Option<usize> },
}

/// The mathematical model of a [`ConfigError`].
pub enum ErrorModel {
    Io { reason: Seq<char> },
    Syntax { reason: Seq<char> },
    InvalidPattern { field_name: Seq<char>, text: Seq<char>, reason: Seq<char>, rule_index: Option<int> },
    MissingField { field_name: Seq<char>, rule_index: Option<int> },
}

impl ErrorModel {
    /// A missing field that belongs to no rule.
    pub open spec fn missing(field_name: Seq<char>) -> ErrorModel {
        ErrorModel::MissingField { field_name, rule_index: None }
    }

    /// The same error, marked as found in the rule at `index`. Errors that do
    /// not concern a field stay as they are.
    pub open spec fn at_rule(self, index: int) -> ErrorModel {
        match self {
            ErrorModel::InvalidPattern { field_name, text, reason, rule_index } => ErrorModel::InvalidPattern {
                field_name,
                text,
                reason,
                rule_index: Some(index),
            },
            ErrorModel::MissingField { field_name, rule_index } => ErrorModel::MissingField {
                field_name,
                rule_index: Some(index),
            },
            other => other,
        }
    }
}

/// The model of an optional position in the rule list.
pub open spec fn index_model(index: Option<usize>) -> Option<int> {
    match index {
        Some(i) => Some(i as int),
        None => None,
    }
}

impl View for ConfigError {
    type V = ErrorModel;

    open spec fn view(&self) -> ErrorModel {
        match self {
            ConfigError::Io { reason } => ErrorModel::Io { reason: reason@ },
            ConfigError::Syntax { reason } => ErrorModel::Syntax { reason: reason@ },
            ConfigError::InvalidPattern { field_name, text, reason, rule_index } => ErrorModel::InvalidPattern {
                field_name: field_name@,
                text: text@,
                reason: reason@,
                rule_index: index_model(*rule_index),
            },
            ConfigError::MissingField { field_name, rule_index } => ErrorModel::MissingField {
                field_name: field_name@,
                rule_index: index_model(*rule_index),
            },
        }
    }
}

impl DeepView for ConfigError {
    type V = ErrorModel;

    open spec fn deep_view(&self) -> ErrorModel {
        self@
    }
}

/// The model of what a fallible operation gave: the model of its value or
/// the model of its error.
pub open spec fn outcome<T: DeepView, E: DeepView>(r: Result<T, E>) -> Result<T::V, E::V> {
    match r {
        Ok(value) => Ok(value.deep_view()),
        Err(e) => Err(e.deep_view()),
    }
}

impl ConfigError {
    /// The error for a missing field that belongs to no rule.
    pub fn missing(field_name: &str) -> (e: ConfigError)
        ensures
            e@ == ErrorModel::missing(field_name@),
    {
        ConfigError::MissingField { field_name: field_name.to_owned(), rule_index: None }
    }

    /// Marks the error as found in the rule at `index`.
    pub fn at_rule(self, index: usize) -> (e: ConfigError)
        ensures
            e@ == self@.at_rule(index as int),
    {
        match self {
            ConfigError::InvalidPattern { field_name, text, reason, rule_index: _ } => ConfigError::InvalidPattern {
                field_name,
                text,
                reason,
                rule_index: Some(index),
            },
            ConfigError::MissingField { field_name, rule_index: _ } => ConfigError::MissingField {
                field_name,
                rule_index: Some(index),
            },
            other => other,
        }
    }
}

} // verus!
