//! The ways in which a call can fail, and the message of each.

use vstd::prelude::*;

verus! {

/// The option that a configuration error is about.
#[derive(Clone, Copy, Debug, PartialEq, Eq, Structural)]
pub enum ConfigField {
    IgnoreKeysRegex,
    OutputFormat,
    ConfidenceLevel,
    AnalysisThreshold,
    SignificanceLevel,
    ParetoRatio,
    ZipfFrequencyCutoff,
    GenerateRangeMin,
    GenerateRangeMax,
}

/// The text that introduces what is wrong with an option.
pub open spec fn field_prefix(field: ConfigField) -> Seq<char> {
    match field {
        ConfigField::IgnoreKeysRegex => "Invalid regex: "@,
        ConfigField::OutputFormat => "Invalid output format: "@,
        ConfigField::ConfidenceLevel => "Invalid confidence level: "@,
        ConfigField::AnalysisThreshold => "Invalid analysis threshold: "@,
        ConfigField::SignificanceLevel => "Invalid significance level: "@,
        ConfigField::ParetoRatio => "Invalid Pareto ratio: "@,
        ConfigField::ZipfFrequencyCutoff => "Invalid Zipf frequency cutoff: "@,
        ConfigField::GenerateRangeMin => "Invalid generation range minimum: "@,
        ConfigField::GenerateRangeMax => "Invalid generation range maximum: "@,
    }
}

impl ConfigField {
    /// The text that introduces what is wrong with this option.
    pub fn prefix(&self) -> (r: &'static str)
        ensures
            r@ == field_prefix(*self),
    {
        match self {
            ConfigField::IgnoreKeysRegex => "Invalid regex: ",
            ConfigField::OutputFormat => "Invalid output format: ",
            ConfigField::ConfidenceLevel => "Invalid confidence level: ",
            ConfigField::AnalysisThreshold => "Invalid analysis threshold: ",
            ConfigField::SignificanceLevel => "Invalid significance level: ",
            ConfigField::ParetoRatio => "Invalid Pareto ratio: ",
            ConfigField::ZipfFrequencyCutoff => "Invalid Zipf frequency cutoff: ",
            ConfigField::GenerateRangeMin => "Invalid generation range minimum: ",
            ConfigField::GenerateRangeMax => "Invalid generation range maximum: ",
        }
    }
}

/// Why a call failed.
#[derive(Clone, Debug, PartialEq, Eq)]
pub enum LawError {
    /// An option failed validation; `detail` is the underlying parse error,
    /// or the domain that a number lies outside.
    InvalidConfiguration { field: ConfigField, detail: String },
    /// The law identifier is not one of the recognised names.
    UnknownLaw { name: String },
    /// The selected analyzer failed; `detail` is what it reported.
    AnalysisFailed { detail: String },
}

/// The text that introduces the detail of an error in its message.
pub open spec fn message_prefix(e: LawError) -> Seq<char> {
    match e {
        LawError::InvalidConfiguration { field, .. } => field_prefix(field),
        LawError::UnknownLaw { .. } => "Law analysis error: Unknown subcommand: "@,
        LawError::AnalysisFailed { .. } => "Law analysis error: "@,
    }
}

/// The detail that an error carries.
pub open spec fn message_detail(e: LawError) -> Seq<char> {
    match e {
        LawError::InvalidConfiguration { detail, .. } => detail@,
        LawError::UnknownLaw { name } => name@,
        LawError::AnalysisFailed { detail } => detail@,
    }
}

impl LawError {
    /// True for the errors raised before any analyzer runs.
    pub fn is_invalid_argument(&self) -> (r: bool)
        ensures
            r == (*self is InvalidConfiguration),
    {
        match self {
            LawError::InvalidConfiguration { .. } => true,
            _ => false,
        }
    }

    /// The human-readable message: a prefix that names the kind of failure,
    /// followed by the detail.
    pub fn message(&self) -> (r: String)
        ensures
            r@ == message_prefix(*self) + message_detail(*self),
    {
        match self {
            LawError::InvalidConfiguration { field, detail } => {
                String::from_str(field.prefix()).concat(detail.as_str())
            },
            LawError::UnknownLaw { name } => {
                String::from_str("Law analysis error: Unknown subcommand: ").concat(name.as_str())
            },
            LawError::AnalysisFailed { detail } => {
                String::from_str("Law analysis error: ").concat(detail.as_str())
            },
        }
    }
}

} // verus!
