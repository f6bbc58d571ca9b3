//! Options as they are given, the configuration they resolve to, and the
//! rules by which they are validated.

use crate::error::{ConfigField, LawError};
use vstd::prelude::*;

verus! {

/// The supported output formats.
#[derive(Clone, Copy, Debug, PartialEq, Eq, Structural)]
pub enum OutputFormat {
    Lawkit,
    Json,
    Yaml,
    Csv,
    Text,
}

/// The options as a caller supplies them: every field is optional, and a real
/// number is given by its binary64 bit pattern.
#[derive(Clone, Debug, Default, PartialEq, Eq)]
pub struct JsLawkitOptions {
    /// Regex pattern for keys to ignore
    pub ignore_keys_regex: Option<String>,
    /// Only show differences in paths containing this string
    pub path_filter: Option<String>,
    /// Output format
    pub output_format: Option<String>,
    /// Show detailed analysis information
    pub show_details: Option<bool>,
    /// Show recommendations in output
    pub show_recommendations: Option<bool>,
    /// Enable memory optimization for large datasets
    pub use_memory_optimization: Option<bool>,
    /// Batch size for memory optimization
    pub batch_size: Option<u32>,
    /// Risk threshold level: "low", "medium", "high"
    pub risk_threshold: Option<String>,
    /// Confidence level for statistical tests (bit pattern)
    pub confidence_level: Option<u64>,
    /// Analysis threshold value (bit pattern)
    pub analysis_threshold: Option<u64>,
    /// Statistical significance level (bit pattern)
    pub significance_level: Option<u64>,
    /// Minimum sample size required
    pub min_sample_size: Option<u32>,
    /// Enable outlier detection
    pub enable_outlier_detection: Option<bool>,
    /// Digits to analyze for Benford's law: "first", "second", "both"
    pub benford_digits: Option<String>,
    /// Benford analysis base
    pub benford_base: Option<u32>,
    /// Pareto ratio (bit pattern)
    pub pareto_ratio: Option<u64>,
    /// Maximum categories for Pareto analysis
    pub pareto_category_limit: Option<u32>,
    /// Maximum rank limit for Zipf analysis
    pub zipf_rank_limit: Option<u32>,
    /// Frequency cutoff for Zipf analysis (bit pattern)
    pub zipf_frequency_cutoff: Option<u64>,
    /// Count for data generation
    pub generate_count: Option<u32>,
    /// Lower end of the range for data generation (bit pattern)
    pub generate_range_min: Option<u64>,
    /// Upper end of the range for data generation (bit pattern)
    pub generate_range_max: Option<u64>,
    /// Seed for random data generation, as text
    pub generate_seed: Option<String>,
    /// Enable Japanese numeral support
    pub enable_japanese_numerals: Option<bool>,
    /// Enable international numeral support
    pub enable_international_numerals: Option<bool>,
    /// Enable parallel processing
    pub enable_parallel_processing: Option<bool>,
    /// Memory limit in MB
    pub memory_limit_mb: Option<u32>,
}

/// The law-specific part of a resolved configuration.
#[derive(Clone, Debug, Default, PartialEq, Eq)]
pub struct LawkitSpecificOptions {
    pub risk_threshold: Option<String>,
    pub confidence_level: Option<u64>,
    pub analysis_threshold: Option<u64>,
    pub significance_level: Option<u64>,
    pub min_sample_size: Option<usize>,
    pub enable_outlier_detection: Option<bool>,
    pub benford_digits: Option<String>,
    pub benford_base: Option<u32>,
    pub pareto_ratio: Option<u64>,
    pub pareto_category_limit: Option<usize>,
    pub zipf_rank_limit: Option<usize>,
    pub zipf_frequency_cutoff: Option<u64>,
    pub generate_count: Option<usize>,
    pub generate_range_min: Option<u64>,
    pub generate_range_max: Option<u64>,
    pub generate_seed: Option<u64>,
    pub enable_japanese_numerals: Option<bool>,
    pub enable_international_numerals: Option<bool>,
    pub enable_parallel_processing: Option<bool>,
    pub memory_limit_mb: Option<usize>,
}

/// A resolved configuration. `ignore_keys_regex` holds a pattern that compiles.
#[derive(Clone, Debug, Default, PartialEq, Eq)]
pub struct LawkitOptions {
    pub ignore_keys_regex: Option<String>,
    pub path_filter: Option<String>,
    pub output_format: Option<OutputFormat>,
    pub show_details: Option<bool>,
    pub show_recommendations: Option<bool>,
    pub use_memory_optimization: Option<bool>,
    pub batch_size: Option<usize>,
    /// Present exactly when at least one law-specific option was given.
    pub lawkit_options: Option<LawkitSpecificOptions>,
}

/// What compiling `pattern` as a regular expression reports: `None` when it
/// compiles, the error's text when it does not.
pub uninterp spec fn regex_rejection(pattern: Seq<char>) -> Option<Seq<char>>;

/// The lowercase form of a text, as `str::to_lowercase` gives it.
pub uninterp spec fn lowercase_of(text: Seq<char>) -> Seq<char>;

/// The format that a lowercase identifier names.
pub open spec fn format_named(lowered: Seq<char>) -> Option<OutputFormat> {
    if lowered == "lawkit"@ {
        Some(OutputFormat::Lawkit)
    } else if lowered == "json"@ {
        Some(OutputFormat::Json)
    } else if lowered == "yaml"@ || lowered == "yml"@ {
        Some(OutputFormat::Yaml)
    } else if lowered == "csv"@ {
        Some(OutputFormat::Csv)
    } else if lowered == "text"@ || lowered == "txt"@ {
        Some(OutputFormat::Text)
    } else {
        None
    }
}

/// What reading `text` as an output format gives: the format that its
/// lowercase form names, or the text of the refusal.
pub open spec fn format_reading(text: Seq<char>) -> Result<OutputFormat, Seq<char>> {
    match format_named(lowercase_of(text)) {
        Some(format) => Ok(format),
        None => Err("Invalid output format: "@ + text),
    }
}

pub open spec fn is_decimal_digit(c: char) -> bool {
    '0' <= c && c <= '9'
}

/// The value of a decimal digit; any other character counts as zero.
pub open spec fn digit_value(c: char) -> nat {
    if is_decimal_digit(c) {
        (c as int - '0' as int) as nat
    } else {
        0
    }
}

/// The number that a string of decimal digits writes.
pub open spec fn decimal_value(digits: Seq<char>) -> nat
    decreases digits.len(),
{
    if digits.len() == 0 {
        0
    } else {
        decimal_value(digits.drop_last()) * 10 + digit_value(digits.last())
    }
}

/// Whether every character of a string is a decimal digit.
pub open spec fn all_decimal_digits(text: Seq<char>) -> bool {
    forall|i: int| 0 <= i < text.len() ==> is_decimal_digit(#[trigger] text[i])
}

/// Where the digits of a seed begin: after a leading `+`, if there is one.
pub open spec fn digits_start(text: Seq<char>) -> int {
    if text.len() > 0 && text[0] == '+' {
        1
    } else {
        0
    }
}

/// The seed that a text gives: an optional `+`, then one or more decimal
/// digits whose value fits in 64 bits. Any other text gives none.
pub open spec fn seed_of_text(text: Seq<char>) -> Option<u64> {
    let digits = text.subrange(digits_start(text), text.len() as int);
    if digits.len() > 0 && all_decimal_digits(digits) && decimal_value(digits) <= u64::MAX {
        Some(decimal_value(digits) as u64)
    } else {
        None
    }
}

pub open spec fn widened(x: Option<u32>) -> Option<usize> {
    match x {
        Some(v) => Some(v as usize),
        None => None,
    }
}

/// The seed of a resolved configuration: text that is no seed is passed over.
pub open spec fn resolved_seed(js: JsLawkitOptions) -> Option<u64> {
    match js.generate_seed {
        Some(text) => seed_of_text(text@),
        None => None,
    }
}

/// Whether any law-specific option takes effect.
pub open spec fn has_law_specific(js: JsLawkitOptions) -> bool {
    js.risk_threshold is Some || js.confidence_level is Some || js.analysis_threshold is Some
        || js.significance_level is Some || js.min_sample_size is Some
        || js.enable_outlier_detection is Some || js.benford_digits is Some
        || js.benford_base is Some || js.pareto_ratio is Some || js.pareto_category_limit is Some
        || js.zipf_rank_limit is Some || js.zipf_frequency_cutoff is Some
        || js.generate_count is Some || js.generate_range_min is Some
        || js.generate_range_max is Some || resolved_seed(js) is Some
        || js.enable_japanese_numerals is Some || js.enable_international_numerals is Some
        || js.enable_parallel_processing is Some || js.memory_limit_mb is Some
}

pub open spec fn law_specific_of(js: JsLawkitOptions) -> LawkitSpecificOptions {
    LawkitSpecificOptions {
        risk_threshold: js.risk_threshold,
        confidence_level: js.confidence_level,
        analysis_threshold: js.analysis_threshold,
        significance_level: js.significance_level,
        min_sample_size: widened(js.min_sample_size),
        enable_outlier_detection: js.enable_outlier_detection,
        benford_digits: js.benford_digits,
        benford_base: js.benford_base,
        pareto_ratio: js.pareto_ratio,
        pareto_category_limit: widened(js.pareto_category_limit),
        zipf_rank_limit: widened(js.zipf_rank_limit),
        zipf_frequency_cutoff: js.zipf_frequency_cutoff,
        generate_count: widened(js.generate_count),
        generate_range_min: js.generate_range_min,
        generate_range_max: js.generate_range_max,
        generate_seed: resolved_seed(js),
        enable_japanese_numerals: js.enable_japanese_numerals,
        enable_international_numerals: js.enable_international_numerals,
        enable_parallel_processing: js.enable_parallel_processing,
        memory_limit_mb: widened(js.memory_limit_mb),
    }
}

/// The format of a resolved configuration, where the given text names one.
pub open spec fn resolved_format(js: JsLawkitOptions) -> Option<OutputFormat> {
    match js.output_format {
        Some(text) => match format_reading(text@) {
            Ok(format) => Some(format),
            Err(_) => None,
        },
        None => None,
    }
}

/// The configuration that valid options resolve to.
pub open spec fn resolved_options(js: JsLawkitOptions) -> LawkitOptions {
    LawkitOptions {
        ignore_keys_regex: js.ignore_keys_regex,
        path_filter: js.path_filter,
        output_format: resolved_format(js),
        show_details: js.show_details,
        show_recommendations: js.show_recommendations,
        use_memory_optimization: js.use_memory_optimization,
        batch_size: widened(js.batch_size),
        lawkit_options: if has_law_specific(js) {
            Some(law_specific_of(js))
        } else {
            None
        },
    }
}

/// Whether a bit pattern is that of a finite number: its exponent is not the
/// all-ones exponent of the infinities and the NaNs.
pub open spec fn is_finite_pattern(bits: u64) -> bool {
    bits % 0x8000_0000_0000_0000 < 0x7FF0_0000_0000_0000
}

/// Whether a bit pattern is that of a number above 0 and below 1. Among the
/// patterns with a clear sign bit, a greater number has a greater pattern,
/// and 1 has the pattern `0x3FF0_0000_0000_0000`.
pub open spec fn is_inside_unit_pattern(bits: u64) -> bool {
    0 < bits && bits < 0x3FF0_0000_0000_0000
}

/// Whether a bit pattern is that of a number above 0 and not above 1.
pub open spec fn is_unit_pattern(bits: u64) -> bool {
    0 < bits && bits <= 0x3FF0_0000_0000_0000
}

/// The domain of each numeric option: the confidence level lies strictly
/// between 0 and 1, the Pareto ratio above 0 and not above 1, and every
/// other number is finite.
pub open spec fn in_domain(field: ConfigField, bits: u64) -> bool {
    match field {
        ConfigField::ConfidenceLevel => is_inside_unit_pattern(bits),
        ConfigField::ParetoRatio => is_unit_pattern(bits),
        _ => is_finite_pattern(bits),
    }
}

/// How the domain of a numeric option is put in words.
pub open spec fn domain_text(field: ConfigField) -> Seq<char> {
    match field {
        ConfigField::ConfidenceLevel => "must be greater than 0 and less than 1"@,
        ConfigField::ParetoRatio => "must be greater than 0 and at most 1"@,
        _ => "must be a finite number"@,
    }
}

pub open spec fn is_outside(field: ConfigField, value: Option<u64>) -> bool {
    value is Some && !in_domain(field, value.unwrap())
}

/// The first numeric option that lies outside its domain, in the order in
/// which the options are declared.
pub open spec fn numeric_rejection(js: JsLawkitOptions) -> Option<ConfigField> {
    if is_outside(ConfigField::ConfidenceLevel, js.confidence_level) {
        Some(ConfigField::ConfidenceLevel)
    } else if is_outside(ConfigField::AnalysisThreshold, js.analysis_threshold) {
        Some(ConfigField::AnalysisThreshold)
    } else if is_outside(ConfigField::SignificanceLevel, js.significance_level) {
        Some(ConfigField::SignificanceLevel)
    } else if is_outside(ConfigField::ParetoRatio, js.pareto_ratio) {
        Some(ConfigField::ParetoRatio)
    } else if is_outside(ConfigField::ZipfFrequencyCutoff, js.zipf_frequency_cutoff) {
        Some(ConfigField::ZipfFrequencyCutoff)
    } else if is_outside(ConfigField::GenerateRangeMin, js.generate_range_min) {
        Some(ConfigField::GenerateRangeMin)
    } else if is_outside(ConfigField::GenerateRangeMax, js.generate_range_max) {
        Some(ConfigField::GenerateRangeMax)
    } else {
        None
    }
}

/// The first option that fails validation, with the parse error's text or
/// the domain in words: the pattern is looked at first, then the format,
/// then the numbers.
pub open spec fn rejection(js: JsLawkitOptions) -> Option<(ConfigField, Seq<char>)> {
    if js.ignore_keys_regex is Some && regex_rejection(js.ignore_keys_regex.unwrap()@) is Some {
        Some((ConfigField::IgnoreKeysRegex, regex_rejection(js.ignore_keys_regex.unwrap()@).unwrap()))
    } else if js.output_format is Some && format_reading(js.output_format.unwrap()@) is Err {
        Some((ConfigField::OutputFormat, format_reading(js.output_format.unwrap()@)->Err_0))
    } else if numeric_rejection(js) is Some {
        Some((numeric_rejection(js).unwrap(), domain_text(numeric_rejection(js).unwrap())))
    } else {
        None
    }
}

/// Whether an optional number, where given, lies in the domain of `field`.
pub open spec fn within(field: ConfigField, value: Option<u64>) -> bool {
    value is Some ==> in_domain(field, value.unwrap())
}

impl LawkitOptions {
    /// The invariant of a resolved configuration: its pattern compiles and
    /// each of its numbers lies in its domain.
    pub open spec fn well_formed(self) -> bool {
        &&& self.ignore_keys_regex is Some ==> regex_rejection(self.ignore_keys_regex.unwrap()@)
            is None
        &&& self.lawkit_options is Some ==> {
            let specific = self.lawkit_options.unwrap();
            &&& within(ConfigField::ConfidenceLevel, specific.confidence_level)
            &&& within(ConfigField::AnalysisThreshold, specific.analysis_threshold)
            &&& within(ConfigField::SignificanceLevel, specific.significance_level)
            &&& within(ConfigField::ParetoRatio, specific.pareto_ratio)
            &&& within(ConfigField::ZipfFrequencyCutoff, specific.zipf_frequency_cutoff)
            &&& within(ConfigField::GenerateRangeMin, specific.generate_range_min)
            &&& within(ConfigField::GenerateRangeMax, specific.generate_range_max)
        }
    }
}

/// What resolving `js` must give.
pub open spec fn resolves_to(js: JsLawkitOptions, r: Result<LawkitOptions, LawError>) -> bool {
    match r {
        Ok(options) => rejection(js) is None && options == resolved_options(js),
        Err(LawError::InvalidConfiguration { field, detail }) => rejection(js) == Some(
            (field, detail@),
        ),
        Err(_) => false,
    }
}

/// Compiles `pattern` with `regex::Regex::new` and hands back the error's
/// text, or `None` when the pattern compiles. The outcome depends on the
/// pattern alone and goes by the name `regex_rejection`.
#[verifier::external_body]
fn compile_pattern(pattern: &str) -> (r: Option<String>)
    ensures
        r is Some <==> regex_rejection(pattern@) is Some,
        r is Some ==> r.unwrap()@ == regex_rejection(pattern@).unwrap(),
{
    match regex::Regex::new(pattern) {
        Ok(_) => None,
        Err(e) => Some(e.to_string()),
    }
}

/// Reads `text` with `lawkit_core::OutputFormat::parse_format`, which lowers
/// the case of the text with `str::to_lowercase`, looks the outcome up among
/// seven identifiers, and refuses any other text with a message that quotes
/// the text as it was given.
#[verifier::external_body]
fn read_format(text: &str) -> (r: Result<OutputFormat, String>)
    ensures
        r is Ok <==> format_named(lowercase_of(text@)) is Some,
        r is Ok ==> r.unwrap() == format_named(lowercase_of(text@)).unwrap(),
        r is Err ==> r.unwrap_err()@ == "Invalid output format: "@ + text@,
{
    match lawkit_core::OutputFormat::parse_format(text) {
        Ok(lawkit_core::OutputFormat::Lawkit) => Ok(OutputFormat::Lawkit),
        Ok(lawkit_core::OutputFormat::Json) => Ok(OutputFormat::Json),
        Ok(lawkit_core::OutputFormat::Yaml) => Ok(OutputFormat::Yaml),
        Ok(lawkit_core::OutputFormat::Csv) => Ok(OutputFormat::Csv),
        Ok(lawkit_core::OutputFormat::Text) => Ok(OutputFormat::Text),
        Err(e) => Err(e.to_string()),
    }
}

/// Appending a digit to a string of digits multiplies its value by ten and
/// adds the digit, so the value never shrinks.
pub proof fn lemma_decimal_value_step(text: Seq<char>, start: int, end: int)
    requires
        0 <= start <= end < text.len(),
    ensures
        decimal_value(text.subrange(start, end + 1)) == decimal_value(text.subrange(start, end))
            * 10 + digit_value(text[end]),
{
    assert(text.subrange(start, end + 1).drop_last() =~= text.subrange(start, end));
}

/// Reads a seed from text: an optional `+`, then decimal digits only, with a
/// value that fits in 64 bits.
pub fn parse_seed(text: &str) -> (r: Option<u64>)
    ensures
        r == seed_of_text(text@),
{
    broadcast use vstd::string::axiom_spec_iter;

    let ghost start = digits_start(text@);
    let mut at_start = true;
    let mut any_digit = false;
    let mut all_digits = true;
    let mut fits = true;
    let mut value: u64 = 0;
    for c in it: text.chars()
        invariant
            it.seq() == text@,
            start == digits_start(text@),
            at_start <==> it.index() == 0,
            any_digit <==> it.index() > start,
            all_digits <==> forall|j: int|
                start <= j < it.index() ==> is_decimal_digit(#[trigger] text@[j]),
            all_digits && it.index() >= start ==> (fits <==> decimal_value(
                text@.subrange(start, it.index() as int),
            ) <= u64::MAX),
            all_digits && fits && it.index() >= start ==> value == decimal_value(
                text@.subrange(start, it.index() as int),
            ),
            all_digits && it.index() < start ==> fits && value == 0,
    {
        let ghost i = it.index() as int;
        assert(c == text@[i]);
        if at_start && c == '+' {
            assert(text@.subrange(1, 1) =~= Seq::<char>::empty());
        } else {
            proof {
                if start == i {
                    assert(text@.subrange(start, i) =~= Seq::<char>::empty());
                }
            }
            if '0' <= c && c <= '9' {
                proof {
                    lemma_decimal_value_step(text@, start, i);
                }
                if all_digits && fits {
                    let digit: u64 = (c as u64) - ('0' as u64);
                    if value <= (u64::MAX - digit) / 10 {
                        value = value * 10 + digit;
                    } else {
                        fits = false;
                    }
                }
            } else {
                all_digits = false;
            }
            any_digit = true;
        }
        at_start = false;
    }
    proof {
        let digits = text@.subrange(start, text@.len() as int);
        assert(all_digits <==> all_decimal_digits(digits)) by {
            if all_digits {
                assert forall|i: int| 0 <= i < digits.len() implies is_decimal_digit(
                    #[trigger] digits[i],
                ) by {
                    assert(digits[i] == text@[start + i]);
                }
            } else {
                let j = choose|j: int|
                    start <= j < text@.len() && !is_decimal_digit(#[trigger] text@[j]);
                assert(digits[j - start] == text@[j]);
            }
        }
    }
    if any_digit && all_digits && fits {
        Some(value)
    } else {
        None
    }
}

fn holds_in_domain(field: ConfigField, bits: u64) -> (r: bool)
    ensures
        r == in_domain(field, bits),
{
    match field {
        ConfigField::ConfidenceLevel => 0 < bits && bits < 0x3FF0_0000_0000_0000,
        ConfigField::ParetoRatio => 0 < bits && bits <= 0x3FF0_0000_0000_0000,
        _ => bits % 0x8000_0000_0000_0000 < 0x7FF0_0000_0000_0000,
    }
}

fn domain_in_words(field: ConfigField) -> (r: &'static str)
    ensures
        r@ == domain_text(field),
{
    match field {
        ConfigField::ConfidenceLevel => "must be greater than 0 and less than 1",
        ConfigField::ParetoRatio => "must be greater than 0 and at most 1",
        _ => "must be a finite number",
    }
}

/// The numeric option that `numeric_rejection` names.
fn first_number_outside(js: &JsLawkitOptions) -> (r: Option<ConfigField>)
    ensures
        r == numeric_rejection(*js),
{
    if is_given_outside(ConfigField::ConfidenceLevel, js.confidence_level) {
        Some(ConfigField::ConfidenceLevel)
    } else if is_given_outside(ConfigField::AnalysisThreshold, js.analysis_threshold) {
        Some(ConfigField::AnalysisThreshold)
    } else if is_given_outside(ConfigField::SignificanceLevel, js.significance_level) {
        Some(ConfigField::SignificanceLevel)
    } else if is_given_outside(ConfigField::ParetoRatio, js.pareto_ratio) {
        Some(ConfigField::ParetoRatio)
    } else if is_given_outside(ConfigField::ZipfFrequencyCutoff, js.zipf_frequency_cutoff) {
        Some(ConfigField::ZipfFrequencyCutoff)
    } else if is_given_outside(ConfigField::GenerateRangeMin, js.generate_range_min) {
        Some(ConfigField::GenerateRangeMin)
    } else if is_given_outside(ConfigField::GenerateRangeMax, js.generate_range_max) {
        Some(ConfigField::GenerateRangeMax)
    } else {
        None
    }
}

fn is_given_outside(field: ConfigField, value: Option<u64>) -> (r: bool)
    ensures
        r == is_outside(field, value),
{
    match value {
        Some(bits) => !holds_in_domain(field, bits),
        None => false,
    }
}

fn widen(x: Option<u32>) -> (r: Option<usize>)
    ensures
        r == widened(x),
{
    match x {
        Some(v) => Some(v as usize),
        None => None,
    }
}

/// Merges the given options into a resolved configuration.
///
/// The ignore-keys pattern must compile, the output format must be a known
/// identifier and every number must lie in its domain; the first that does
/// not is reported: the pattern before the format, the format before the
/// numbers. Nothing is resolved in part. A seed that is not a non-negative integer is passed over as if
/// none had been given. The law-specific record is present exactly when some
/// law-specific option takes effect.
pub fn build_lawkit_options(js: JsLawkitOptions) -> (r: Result<LawkitOptions, LawError>)
    ensures
        resolves_to(js, r),
        r is Ok ==> r.unwrap().well_formed(),
{
    if let Some(pattern) = &js.ignore_keys_regex {
        if let Some(detail) = compile_pattern(pattern.as_str()) {
            return Err(LawError::InvalidConfiguration { field: ConfigField::IgnoreKeysRegex, detail });
        }
    }
    let output_format = match &js.output_format {
        Some(text) => match read_format(text.as_str()) {
            Ok(format) => Some(format),
            Err(detail) => {
                return Err(LawError::InvalidConfiguration { field: ConfigField::OutputFormat, detail });
            },
        },
        None => None,
    };
    if let Some(field) = first_number_outside(&js) {
        let detail = String::from_str(domain_in_words(field));
        return Err(LawError::InvalidConfiguration { field, detail });
    }
    let generate_seed = match &js.generate_seed {
        Some(text) => parse_seed(text.as_str()),
        None => None,
    };
    let present = js.risk_threshold.is_some() || js.confidence_level.is_some()
        || js.analysis_threshold.is_some() || js.significance_level.is_some()
        || js.min_sample_size.is_some() || js.enable_outlier_detection.is_some()
        || js.benford_digits.is_some() || js.benford_base.is_some() || js.pareto_ratio.is_some()
        || js.pareto_category_limit.is_some() || js.zipf_rank_limit.is_some()
        || js.zipf_frequency_cutoff.is_some() || js.generate_count.is_some()
        || js.generate_range_min.is_some() || js.generate_range_max.is_some()
        || generate_seed.is_some() || js.enable_japanese_numerals.is_some()
        || js.enable_international_numerals.is_some() || js.enable_parallel_processing.is_some()
        || js.memory_limit_mb.is_some();
    let batch_size = widen(js.batch_size);
    let lawkit_options = if present {
        Some(
            LawkitSpecificOptions {
                risk_threshold: js.risk_threshold,
                confidence_level: js.confidence_level,
                analysis_threshold: js.analysis_threshold,
                significance_level: js.significance_level,
                min_sample_size: widen(js.min_sample_size),
                enable_outlier_detection: js.enable_outlier_detection,
                benford_digits: js.benford_digits,
                benford_base: js.benford_base,
                pareto_ratio: js.pareto_ratio,
                pareto_category_limit: widen(js.pareto_category_limit),
                zipf_rank_limit: widen(js.zipf_rank_limit),
                zipf_frequency_cutoff: js.zipf_frequency_cutoff,
                generate_count: widen(js.generate_count),
                generate_range_min: js.generate_range_min,
                generate_range_max: js.generate_range_max,
                generate_seed,
                enable_japanese_numerals: js.enable_japanese_numerals,
                enable_international_numerals: js.enable_international_numerals,
                enable_parallel_processing: js.enable_parallel_processing,
                memory_limit_mb: widen(js.memory_limit_mb),
            },
        )
    } else {
        None
    };
    Ok(
        LawkitOptions {
            ignore_keys_regex: js.ignore_keys_regex,
            path_filter: js.path_filter,
            output_format,
            show_details: js.show_details,
            show_recommendations: js.show_recommendations,
            use_memory_optimization: js.use_memory_optimization,
            batch_size,
            lawkit_options,
        },
    )
}

/// Resolution is a function of the options alone: two resolutions of the same
/// options succeed or fail together, with equal configurations when they
/// succeed and with the same field and the same detail when they fail.
pub proof fn lemma_resolution_repeats(
    js: JsLawkitOptions,
    first: Result<LawkitOptions, LawError>,
    second: Result<LawkitOptions, LawError>,
)
    requires
        resolves_to(js, first),
        resolves_to(js, second),
    ensures
        first is Ok <==> second is Ok,
        first is Ok ==> first.unwrap() == second.unwrap(),
        first is Err ==> first.unwrap_err()->InvalidConfiguration_field
            == second.unwrap_err()->InvalidConfiguration_field
            && first.unwrap_err()->InvalidConfiguration_detail@
            == second.unwrap_err()->InvalidConfiguration_detail@,
{
}

/// Options that pass validation resolve to a well-formed configuration.
pub proof fn lemma_resolved_is_well_formed(js: JsLawkitOptions)
    requires
        rejection(js) is None,
    ensures
        resolved_options(js).well_formed(),
{
}

/// With no law-specific option given, and no seed that parses, the resolved
/// configuration carries no law-specific record; with any of them given it
/// carries one.
pub proof fn lemma_law_specific_presence(js: JsLawkitOptions)
    ensures
        resolved_options(js).lawkit_options is Some <==> has_law_specific(js),
        resolved_options(js).lawkit_options is Some ==> resolved_options(js).lawkit_options.unwrap()
            == law_specific_of(js),
{
}

} // verus!
