//! The nine shapes of an analysis result, and the one flat record that
//! carries any of them.

use vstd::prelude::*;
use vstd::slice::slice_to_vec;

verus! {

/// First-digit statistics. Every real is a binary64 bit pattern.
#[derive(Clone, Debug, PartialEq, Eq)]
pub struct BenfordData {
    pub observed_distribution: [u64; 9],
    pub expected_distribution: [u64; 9],
    pub chi_square: u64,
    pub p_value: u64,
    pub mad: u64,
    pub risk_level: String,
    pub total_numbers: usize,
    pub analysis_summary: String,
}

#[derive(Clone, Debug, PartialEq, Eq)]
pub struct ParetoData {
    pub top_20_percent_contribution: u64,
    pub pareto_ratio: u64,
    pub concentration_index: u64,
    pub risk_level: String,
    pub total_items: usize,
    pub analysis_summary: String,
}

#[derive(Clone, Debug, PartialEq, Eq)]
pub struct ZipfData {
    pub zipf_coefficient: u64,
    pub correlation_coefficient: u64,
    pub deviation_score: u64,
    pub risk_level: String,
    pub total_items: usize,
    pub analysis_summary: String,
}

#[derive(Clone, Debug, PartialEq, Eq)]
pub struct NormalData {
    pub mean: u64,
    pub std_dev: u64,
    pub skewness: u64,
    pub kurtosis: u64,
    pub normality_test_p: u64,
    pub risk_level: String,
    pub total_numbers: usize,
    pub analysis_summary: String,
}

#[derive(Clone, Debug, PartialEq, Eq)]
pub struct PoissonData {
    pub lambda: u64,
    pub variance_ratio: u64,
    pub poisson_test_p: u64,
    pub risk_level: String,
    pub total_events: usize,
    pub analysis_summary: String,
}

#[derive(Clone, Debug, PartialEq, Eq)]
pub struct IntegrationData {
    pub laws_analyzed: Vec<String>,
    pub overall_risk: String,
    pub conflicting_results: Vec<String>,
    pub recommendations: Vec<String>,
    pub analysis_summary: String,
}

#[derive(Clone, Debug, PartialEq, Eq)]
pub struct ValidationData {
    pub validation_passed: bool,
    pub issues_found: Vec<String>,
    pub data_quality_score: u64,
    pub analysis_summary: String,
}

#[derive(Clone, Debug, PartialEq, Eq)]
pub struct DiagnosticData {
    pub diagnostic_type: String,
    pub findings: Vec<String>,
    pub confidence_level: u64,
    pub analysis_summary: String,
}

/// A generated sample. `parameters` pairs each parameter's name with its
/// value.
#[derive(Clone, Debug, PartialEq, Eq)]
pub struct GeneratedDataInfo {
    pub data_type: String,
    pub count: usize,
    pub parameters: Vec<(String, u64)>,
    pub sample_data: Vec<u64>,
}

/// The outcome of one analysis: one of nine shapes, each with the path of
/// what was analysed.
#[derive(Clone, Debug, PartialEq, Eq)]
pub enum LawkitResult {
    BenfordAnalysis(String, BenfordData),
    ParetoAnalysis(String, ParetoData),
    ZipfAnalysis(String, ZipfData),
    NormalAnalysis(String, NormalData),
    PoissonAnalysis(String, PoissonData),
    IntegrationAnalysis(String, IntegrationData),
    ValidationResult(String, ValidationData),
    DiagnosticResult(String, DiagnosticData),
    GeneratedData(String, GeneratedDataInfo),
}

/// One flat record for all nine shapes: `result_type` names the shape, and
/// only the fields of that shape are present.
#[derive(Clone, Debug, PartialEq, Eq)]
pub struct JsLawkitResult {
    /// Type of analysis result
    pub result_type: String,
    /// Path to the analyzed data
    pub path: String,
    pub observed_distribution: Option<Vec<u64>>,
    pub expected_distribution: Option<Vec<u64>>,
    pub chi_square: Option<u64>,
    pub p_value: Option<u64>,
    pub mad: Option<u64>,
    pub risk_level: Option<String>,
    pub total_numbers: Option<u32>,
    pub analysis_summary: Option<String>,
    pub top_20_percent_contribution: Option<u64>,
    pub pareto_ratio: Option<u64>,
    pub concentration_index: Option<u64>,
    pub total_items: Option<u32>,
    pub zipf_coefficient: Option<u64>,
    pub correlation_coefficient: Option<u64>,
    pub deviation_score: Option<u64>,
    pub mean: Option<u64>,
    pub std_dev: Option<u64>,
    pub skewness: Option<u64>,
    pub kurtosis: Option<u64>,
    pub normality_test_p: Option<u64>,
    pub lambda: Option<u64>,
    pub variance_ratio: Option<u64>,
    pub poisson_test_p: Option<u64>,
    pub total_events: Option<u32>,
    pub laws_analyzed: Option<Vec<String>>,
    pub overall_risk: Option<String>,
    pub conflicting_results: Option<Vec<String>>,
    pub recommendations: Option<Vec<String>>,
    pub validation_passed: Option<bool>,
    pub issues_found: Option<Vec<String>>,
    pub data_quality_score: Option<u64>,
    pub diagnostic_type: Option<String>,
    pub findings: Option<Vec<String>>,
    pub confidence_level: Option<u64>,
    pub data_type: Option<String>,
    pub count: Option<u32>,
    pub parameters: Option<Vec<(String, u64)>>,
    pub sample_data: Option<Vec<u64>>,
}

/// The record of the given type and path in which nothing else is present.
pub open spec fn bare_record(result_type: String, path: String) -> JsLawkitResult {
    JsLawkitResult {
        result_type,
        path,
        observed_distribution: None,
        expected_distribution: None,
        chi_square: None,
        p_value: None,
        mad: None,
        risk_level: None,
        total_numbers: None,
        analysis_summary: None,
        top_20_percent_contribution: None,
        pareto_ratio: None,
        concentration_index: None,
        total_items: None,
        zipf_coefficient: None,
        correlation_coefficient: None,
        deviation_score: None,
        mean: None,
        std_dev: None,
        skewness: None,
        kurtosis: None,
        normality_test_p: None,
        lambda: None,
        variance_ratio: None,
        poisson_test_p: None,
        total_events: None,
        laws_analyzed: None,
        overall_risk: None,
        conflicting_results: None,
        recommendations: None,
        validation_passed: None,
        issues_found: None,
        data_quality_score: None,
        diagnostic_type: None,
        findings: None,
        confidence_level: None,
        data_type: None,
        count: None,
        parameters: None,
        sample_data: None,
    }
}

/// The name of a result's shape.
pub open spec fn shape_name(result: LawkitResult) -> Seq<char> {
    match result {
        LawkitResult::BenfordAnalysis(..) => "BenfordAnalysis"@,
        LawkitResult::ParetoAnalysis(..) => "ParetoAnalysis"@,
        LawkitResult::ZipfAnalysis(..) => "ZipfAnalysis"@,
        LawkitResult::NormalAnalysis(..) => "NormalAnalysis"@,
        LawkitResult::PoissonAnalysis(..) => "PoissonAnalysis"@,
        LawkitResult::IntegrationAnalysis(..) => "IntegrationAnalysis"@,
        LawkitResult::ValidationResult(..) => "ValidationResult"@,
        LawkitResult::DiagnosticResult(..) => "DiagnosticResult"@,
        LawkitResult::GeneratedData(..) => "GeneratedData"@,
    }
}

/// A count as the record carries it: its low 32 bits.
pub open spec fn low_word(n: usize) -> u32 {
    (n as int % 0x1_0000_0000) as u32
}

/// Whether `js` is the flat record of `result`: it names the shape, carries
/// each field of that shape unchanged (a count by its low 32 bits, the two
/// digit distributions as sequences), and nothing else.
pub open spec fn is_record_of(js: JsLawkitResult, result: LawkitResult) -> bool {
    &&& js.result_type@ == shape_name(result)
    &&& match result {
        LawkitResult::BenfordAnalysis(path, data) => {
            &&& js.observed_distribution is Some
            &&& js.observed_distribution.unwrap()@ == data.observed_distribution@
            &&& js.expected_distribution is Some
            &&& js.expected_distribution.unwrap()@ == data.expected_distribution@
            &&& js == (JsLawkitResult {
                observed_distribution: js.observed_distribution,
                expected_distribution: js.expected_distribution,
                chi_square: Some(data.chi_square),
                p_value: Some(data.p_value),
                mad: Some(data.mad),
                risk_level: Some(data.risk_level),
                total_numbers: Some(low_word(data.total_numbers)),
                analysis_summary: Some(data.analysis_summary),
                ..bare_record(js.result_type, path)
            })
        },
        LawkitResult::ParetoAnalysis(path, data) => js == (JsLawkitResult {
            top_20_percent_contribution: Some(data.top_20_percent_contribution),
            pareto_ratio: Some(data.pareto_ratio),
            concentration_index: Some(data.concentration_index),
            risk_level: Some(data.risk_level),
            total_items: Some(low_word(data.total_items)),
            analysis_summary: Some(data.analysis_summary),
            ..bare_record(js.result_type, path)
        }),
        LawkitResult::ZipfAnalysis(path, data) => js == (JsLawkitResult {
            zipf_coefficient: Some(data.zipf_coefficient),
            correlation_coefficient: Some(data.correlation_coefficient),
            deviation_score: Some(data.deviation_score),
            risk_level: Some(data.risk_level),
            total_items: Some(low_word(data.total_items)),
            analysis_summary: Some(data.analysis_summary),
            ..bare_record(js.result_type, path)
        }),
        LawkitResult::NormalAnalysis(path, data) => js == (JsLawkitResult {
            mean: Some(data.mean),
            std_dev: Some(data.std_dev),
            skewness: Some(data.skewness),
            kurtosis: Some(data.kurtosis),
            normality_test_p: Some(data.normality_test_p),
            risk_level: Some(data.risk_level),
            total_numbers: Some(low_word(data.total_numbers)),
            analysis_summary: Some(data.analysis_summary),
            ..bare_record(js.result_type, path)
        }),
        LawkitResult::PoissonAnalysis(path, data) => js == (JsLawkitResult {
            lambda: Some(data.lambda),
            variance_ratio: Some(data.variance_ratio),
            poisson_test_p: Some(data.poisson_test_p),
            risk_level: Some(data.risk_level),
            total_events: Some(low_word(data.total_events)),
            analysis_summary: Some(data.analysis_summary),
            ..bare_record(js.result_type, path)
        }),
        LawkitResult::IntegrationAnalysis(path, data) => js == (JsLawkitResult {
            laws_analyzed: Some(data.laws_analyzed),
            overall_risk: Some(data.overall_risk),
            conflicting_results: Some(data.conflicting_results),
            recommendations: Some(data.recommendations),
            analysis_summary: Some(data.analysis_summary),
            ..bare_record(js.result_type, path)
        }),
        LawkitResult::ValidationResult(path, data) => js == (JsLawkitResult {
            validation_passed: Some(data.validation_passed),
            issues_found: Some(data.issues_found),
            data_quality_score: Some(data.data_quality_score),
            analysis_summary: Some(data.analysis_summary),
            ..bare_record(js.result_type, path)
        }),
        LawkitResult::DiagnosticResult(path, data) => js == (JsLawkitResult {
            diagnostic_type: Some(data.diagnostic_type),
            findings: Some(data.findings),
            confidence_level: Some(data.confidence_level),
            analysis_summary: Some(data.analysis_summary),
            ..bare_record(js.result_type, path)
        }),
        LawkitResult::GeneratedData(path, data) => js == (JsLawkitResult {
            data_type: Some(data.data_type),
            count: Some(low_word(data.count)),
            parameters: Some(data.parameters),
            sample_data: Some(data.sample_data),
            ..bare_record(js.result_type, path)
        }),
    }
}

/// Whether two results have the same shape.
pub open spec fn same_shape(a: LawkitResult, b: LawkitResult) -> bool {
    match (a, b) {
        (LawkitResult::BenfordAnalysis(..), LawkitResult::BenfordAnalysis(..)) => true,
        (LawkitResult::ParetoAnalysis(..), LawkitResult::ParetoAnalysis(..)) => true,
        (LawkitResult::ZipfAnalysis(..), LawkitResult::ZipfAnalysis(..)) => true,
        (LawkitResult::NormalAnalysis(..), LawkitResult::NormalAnalysis(..)) => true,
        (LawkitResult::PoissonAnalysis(..), LawkitResult::PoissonAnalysis(..)) => true,
        (LawkitResult::IntegrationAnalysis(..), LawkitResult::IntegrationAnalysis(..)) => true,
        (LawkitResult::ValidationResult(..), LawkitResult::ValidationResult(..)) => true,
        (LawkitResult::DiagnosticResult(..), LawkitResult::DiagnosticResult(..)) => true,
        (LawkitResult::GeneratedData(..), LawkitResult::GeneratedData(..)) => true,
        _ => false,
    }
}

/// The nine shapes have nine different names.
pub proof fn lemma_shape_names_differ(a: LawkitResult, b: LawkitResult)
    ensures
        shape_name(a) == shape_name(b) <==> same_shape(a, b),
{
    reveal_strlit("BenfordAnalysis");
    reveal_strlit("ParetoAnalysis");
    reveal_strlit("ZipfAnalysis");
    reveal_strlit("NormalAnalysis");
    reveal_strlit("PoissonAnalysis");
    reveal_strlit("IntegrationAnalysis");
    reveal_strlit("ValidationResult");
    reveal_strlit("DiagnosticResult");
    reveal_strlit("GeneratedData");
    assert("BenfordAnalysis"@.len() == 15 && "PoissonAnalysis"@.len() == 15);
    assert("BenfordAnalysis"@[0] != "PoissonAnalysis"@[0]);
    assert("ParetoAnalysis"@.len() == 14 && "NormalAnalysis"@.len() == 14);
    assert("ParetoAnalysis"@[0] != "NormalAnalysis"@[0]);
    assert("ValidationResult"@.len() == 16 && "DiagnosticResult"@.len() == 16);
    assert("ValidationResult"@[0] != "DiagnosticResult"@[0]);
    assert("ZipfAnalysis"@.len() == 12 && "IntegrationAnalysis"@.len() == 19
        && "GeneratedData"@.len() == 13);
}

/// The path of what a result is about.
pub open spec fn path_of(result: LawkitResult) -> String {
    match result {
        LawkitResult::BenfordAnalysis(path, _) => path,
        LawkitResult::ParetoAnalysis(path, _) => path,
        LawkitResult::ZipfAnalysis(path, _) => path,
        LawkitResult::NormalAnalysis(path, _) => path,
        LawkitResult::PoissonAnalysis(path, _) => path,
        LawkitResult::IntegrationAnalysis(path, _) => path,
        LawkitResult::ValidationResult(path, _) => path,
        LawkitResult::DiagnosticResult(path, _) => path,
        LawkitResult::GeneratedData(path, _) => path,
    }
}

/// A record is the record of one shape only: its type names the shape, so
/// two results with the same record have the same shape, and the same path.
pub proof fn lemma_record_has_one_shape(js: JsLawkitResult, a: LawkitResult, b: LawkitResult)
    requires
        is_record_of(js, a),
        is_record_of(js, b),
    ensures
        same_shape(a, b),
        path_of(a) == path_of(b),
        js.path == path_of(a),
{
    lemma_shape_names_differ(a, b);
}

fn low_u32(n: usize) -> (r: u32)
    ensures
        r == low_word(n),
{
    let wide: u64 = n as u64;
    (wide % 0x1_0000_0000) as u32
}

impl JsLawkitResult {
    /// The record of the given type and path in which nothing else is present.
    pub fn bare(result_type: String, path: String) -> (r: JsLawkitResult)
        ensures
            r == bare_record(result_type, path),
    {
        JsLawkitResult {
            result_type,
            path,
            observed_distribution: None,
            expected_distribution: None,
            chi_square: None,
            p_value: None,
            mad: None,
            risk_level: None,
            total_numbers: None,
            analysis_summary: None,
            top_20_percent_contribution: None,
            pareto_ratio: None,
            concentration_index: None,
            total_items: None,
            zipf_coefficient: None,
            correlation_coefficient: None,
            deviation_score: None,
            mean: None,
            std_dev: None,
            skewness: None,
            kurtosis: None,
            normality_test_p: None,
            lambda: None,
            variance_ratio: None,
            poisson_test_p: None,
            total_events: None,
            laws_analyzed: None,
            overall_risk: None,
            conflicting_results: None,
            recommendations: None,
            validation_passed: None,
            issues_found: None,
            data_quality_score: None,
            diagnostic_type: None,
            findings: None,
            confidence_level: None,
            data_type: None,
            count: None,
            parameters: None,
            sample_data: None,
        }
    }
}

/// Flattens a result into the record that names its shape and carries that
/// shape's fields only.
pub fn convert_lawkit_result(result: LawkitResult) -> (js: JsLawkitResult)
    ensures
        is_record_of(js, result),
{
    match result {
        LawkitResult::BenfordAnalysis(path, data) => {
            let mut js = JsLawkitResult::bare(String::from_str("BenfordAnalysis"), path);
            js.observed_distribution = Some(slice_to_vec(data.observed_distribution.as_slice()));
            js.expected_distribution = Some(slice_to_vec(data.expected_distribution.as_slice()));
            js.chi_square = Some(data.chi_square);
            js.p_value = Some(data.p_value);
            js.mad = Some(data.mad);
            js.risk_level = Some(data.risk_level);
            js.total_numbers = Some(low_u32(data.total_numbers));
            js.analysis_summary = Some(data.analysis_summary);
            js
        },
        LawkitResult::ParetoAnalysis(path, data) => {
            let mut js = JsLawkitResult::bare(String::from_str("ParetoAnalysis"), path);
            js.top_20_percent_contribution = Some(data.top_20_percent_contribution);
            js.pareto_ratio = Some(data.pareto_ratio);
            js.concentration_index = Some(data.concentration_index);
            js.risk_level = Some(data.risk_level);
            js.total_items = Some(low_u32(data.total_items));
            js.analysis_summary = Some(data.analysis_summary);
            js
        },
        LawkitResult::ZipfAnalysis(path, data) => {
            let mut js = JsLawkitResult::bare(String::from_str("ZipfAnalysis"), path);
            js.zipf_coefficient = Some(data.zipf_coefficient);
            js.correlation_coefficient = Some(data.correlation_coefficient);
            js.deviation_score = Some(data.deviation_score);
            js.risk_level = Some(data.risk_level);
            js.total_items = Some(low_u32(data.total_items));
            js.analysis_summary = Some(data.analysis_summary);
            js
        },
        LawkitResult::NormalAnalysis(path, data) => {
            let mut js = JsLawkitResult::bare(String::from_str("NormalAnalysis"), path);
            js.mean = Some(data.mean);
            js.std_dev = Some(data.std_dev);
            js.skewness = Some(data.skewness);
            js.kurtosis = Some(data.kurtosis);
            js.normality_test_p = Some(data.normality_test_p);
            js.risk_level = Some(data.risk_level);
            js.total_numbers = Some(low_u32(data.total_numbers));
            js.analysis_summary = Some(data.analysis_summary);
            js
        },
        LawkitResult::PoissonAnalysis(path, data) => {
            let mut js = JsLawkitResult::bare(String::from_str("PoissonAnalysis"), path);
            js.lambda = Some(data.lambda);
            js.variance_ratio = Some(data.variance_ratio);
            js.poisson_test_p = Some(data.poisson_test_p);
            js.risk_level = Some(data.risk_level);
            js.total_events = Some(low_u32(data.total_events));
            js.analysis_summary = Some(data.analysis_summary);
            js
        },
        LawkitResult::IntegrationAnalysis(path, data) => {
            let mut js = JsLawkitResult::bare(String::from_str("IntegrationAnalysis"), path);
            js.laws_analyzed = Some(data.laws_analyzed);
            js.overall_risk = Some(data.overall_risk);
            js.conflicting_results = Some(data.conflicting_results);
            js.recommendations = Some(data.recommendations);
            js.analysis_summary = Some(data.analysis_summary);
            js
        },
        LawkitResult::ValidationResult(path, data) => {
            let mut js = JsLawkitResult::bare(String::from_str("ValidationResult"), path);
            js.validation_passed = Some(data.validation_passed);
            js.issues_found = Some(data.issues_found);
            js.data_quality_score = Some(data.data_quality_score);
            js.analysis_summary = Some(data.analysis_summary);
            js
        },
        LawkitResult::DiagnosticResult(path, data) => {
            let mut js = JsLawkitResult::bare(String::from_str("DiagnosticResult"), path);
            js.diagnostic_type = Some(data.diagnostic_type);
            js.findings = Some(data.findings);
            js.confidence_level = Some(data.confidence_level);
            js.analysis_summary = Some(data.analysis_summary);
            js
        },
        LawkitResult::GeneratedData(path, data) => {
            let mut js = JsLawkitResult::bare(String::from_str("GeneratedData"), path);
            js.data_type = Some(data.data_type);
            js.count = Some(low_u32(data.count));
            js.parameters = Some(data.parameters);
            js.sample_data = Some(data.sample_data);
            js
        },
    }
}

} // verus!
