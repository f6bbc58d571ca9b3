//! Option resolution, law dispatch and the flat result record of a
//! statistical-law analysis front end.
//!
//! Real numbers never enter this crate as such: wherever a record carries one,
//! it carries the number's IEEE 754 binary64 bit pattern in a `u64`.

pub mod dispatch;
pub mod error;
pub mod options;
pub mod results;

pub use dispatch::{canonical_name, complete, law, parse_law, prepare, Dispatch, LawKind};
pub use error::{ConfigField, LawError};
pub use options::{
    build_lawkit_options, parse_seed, JsLawkitOptions, LawkitOptions, LawkitSpecificOptions,
    OutputFormat,
};
pub use results::{
    convert_lawkit_result, BenfordData, DiagnosticData, GeneratedDataInfo, IntegrationData,
    JsLawkitResult, LawkitResult, NormalData, ParetoData, PoissonData, ValidationData, ZipfData,
};
