//! From a law identifier and a set of options to the results of the selected
//! analyzer.

use crate::error::LawError;
use crate::options::{
    build_lawkit_options, rejection, resolved_options, JsLawkitOptions, LawkitOptions,
};
use crate::results::{convert_lawkit_result, is_record_of, JsLawkitResult, LawkitResult};
use vstd::prelude::*;

verus! {

/// The analyzers that a law identifier can select.
#[derive(Clone, Copy, Debug, PartialEq, Eq, Structural)]
pub enum LawKind {
    Benford,
    Pareto,
    Zipf,
    Normal,
    Poisson,
    Analyze,
    Validate,
    Diagnose,
    Generate,
}

/// The identifier of each analyzer.
pub open spec fn name_of(kind: LawKind) -> Seq<char> {
    match kind {
        LawKind::Benford => "benf"@,
        LawKind::Pareto => "pareto"@,
        LawKind::Zipf => "zipf"@,
        LawKind::Normal => "normal"@,
        LawKind::Poisson => "poisson"@,
        LawKind::Analyze => "analyze"@,
        LawKind::Validate => "validate"@,
        LawKind::Diagnose => "diagnose"@,
        LawKind::Generate => "generate"@,
    }
}

/// The analyzer that an identifier selects, if it is one of the nine.
pub open spec fn law_of_name(name: Seq<char>) -> Option<LawKind> {
    if name == "benf"@ {
        Some(LawKind::Benford)
    } else if name == "pareto"@ {
        Some(LawKind::Pareto)
    } else if name == "zipf"@ {
        Some(LawKind::Zipf)
    } else if name == "normal"@ {
        Some(LawKind::Normal)
    } else if name == "poisson"@ {
        Some(LawKind::Poisson)
    } else if name == "analyze"@ {
        Some(LawKind::Analyze)
    } else if name == "validate"@ {
        Some(LawKind::Validate)
    } else if name == "diagnose"@ {
        Some(LawKind::Diagnose)
    } else if name == "generate"@ {
        Some(LawKind::Generate)
    } else {
        None
    }
}

fn same_text(a: &str, b: &str) -> (r: bool)
    ensures
        r == (a@ == b@),
{
    String::from_str(a) == String::from_str(b)
}

/// Looks an identifier up among the nine recognised names.
pub fn parse_law(name: &str) -> (r: Option<LawKind>)
    ensures
        r == law_of_name(name@),
{
    if same_text(name, "benf") {
        Some(LawKind::Benford)
    } else if same_text(name, "pareto") {
        Some(LawKind::Pareto)
    } else if same_text(name, "zipf") {
        Some(LawKind::Zipf)
    } else if same_text(name, "normal") {
        Some(LawKind::Normal)
    } else if same_text(name, "poisson") {
        Some(LawKind::Poisson)
    } else if same_text(name, "analyze") {
        Some(LawKind::Analyze)
    } else if same_text(name, "validate") {
        Some(LawKind::Validate)
    } else if same_text(name, "diagnose") {
        Some(LawKind::Diagnose)
    } else if same_text(name, "generate") {
        Some(LawKind::Generate)
    } else {
        None
    }
}

/// The identifier of an analyzer.
pub fn canonical_name(kind: LawKind) -> (r: &'static str)
    ensures
        r@ == name_of(kind),
{
    match kind {
        LawKind::Benford => "benf",
        LawKind::Pareto => "pareto",
        LawKind::Zipf => "zipf",
        LawKind::Normal => "normal",
        LawKind::Poisson => "poisson",
        LawKind::Analyze => "analyze",
        LawKind::Validate => "validate",
        LawKind::Diagnose => "diagnose",
        LawKind::Generate => "generate",
    }
}

/// The nine identifiers are distinct: each selects its own analyzer, and an
/// identifier that selects an analyzer is that analyzer's own.
pub proof fn lemma_names_select_their_law(kind: LawKind, name: Seq<char>)
    ensures
        law_of_name(name_of(kind)) == Some(kind),
        law_of_name(name) == Some(kind) <==> name == name_of(kind),
{
    reveal_strlit("benf");
    reveal_strlit("pareto");
    reveal_strlit("zipf");
    reveal_strlit("normal");
    reveal_strlit("poisson");
    reveal_strlit("analyze");
    reveal_strlit("validate");
    reveal_strlit("diagnose");
    reveal_strlit("generate");
    assert("benf"@.len() == 4 && "zipf"@.len() == 4 && "benf"@[0] != "zipf"@[0]);
    assert("pareto"@.len() == 6 && "normal"@.len() == 6 && "pareto"@[0] != "normal"@[0]);
    assert("poisson"@.len() == 7 && "analyze"@.len() == 7 && "poisson"@[0] != "analyze"@[0]);
    assert("validate"@.len() == 8 && "diagnose"@.len() == 8 && "generate"@.len() == 8);
    assert("validate"@[0] != "diagnose"@[0] && "validate"@[0] != "generate"@[0]
        && "diagnose"@[0] != "generate"@[0]);
}

/// What the selected analyzer is to be run with.
#[derive(Clone, Debug, PartialEq, Eq)]
pub struct Dispatch {
    pub kind: LawKind,
    /// The resolved configuration, where options were given.
    pub options: Option<LawkitOptions>,
}

/// The option that fails validation in an optional set of options.
pub open spec fn options_rejection(options: Option<JsLawkitOptions>) -> Option<
    (crate::error::ConfigField, Seq<char>),
> {
    match options {
        Some(js) => rejection(js),
        None => None,
    }
}

/// What preparing a call must give: invalid options are reported first, then
/// an unknown identifier; otherwise the analyzer and the resolved options.
pub open spec fn prepares_to(
    subcommand: Seq<char>,
    options: Option<JsLawkitOptions>,
    r: Result<Dispatch, LawError>,
) -> bool {
    match r {
        Ok(dispatch) => {
            &&& options_rejection(options) is None
            &&& law_of_name(subcommand) == Some(dispatch.kind)
            &&& dispatch.options == match options {
                Some(js) => Some(resolved_options(js)),
                None => None,
            }
        },
        Err(LawError::InvalidConfiguration { field, detail }) => options_rejection(options) == Some(
            (field, detail@),
        ),
        Err(LawError::UnknownLaw { name }) => {
            &&& options_rejection(options) is None
            &&& law_of_name(subcommand) is None
            &&& name@ == subcommand
        },
        Err(LawError::AnalysisFailed { .. }) => false,
    }
}

/// Resolves the options and selects the analyzer, before any analysis runs.
pub fn prepare(subcommand: &str, options: Option<JsLawkitOptions>) -> (r: Result<
    Dispatch,
    LawError,
>)
    ensures
        prepares_to(subcommand@, options, r),
        r is Ok && r.unwrap().options is Some ==> r.unwrap().options.unwrap().well_formed(),
{
    let resolved = match options {
        Some(js) => match build_lawkit_options(js) {
            Ok(o) => Some(o),
            Err(e) => {
                return Err(e);
            },
        },
        None => None,
    };
    match parse_law(subcommand) {
        Some(kind) => Ok(Dispatch { kind, options: resolved }),
        None => Err(LawError::UnknownLaw { name: String::from_str(subcommand) }),
    }
}

/// What completing a call must give: an analyzer's failure is passed on with
/// its report; its results are flattened one by one, in their order.
pub open spec fn completes_to(
    outcome: Result<Vec<LawkitResult>, String>,
    r: Result<Vec<JsLawkitResult>, LawError>,
) -> bool {
    match outcome {
        Ok(results) => {
            &&& r matches Ok(records)
            &&& records@.len() == results@.len()
            &&& forall|i: int|
                0 <= i < results@.len() ==> is_record_of(#[trigger] records@[i], results@[i])
        },
        Err(report) => r == Err::<Vec<JsLawkitResult>, LawError>(
            LawError::AnalysisFailed { detail: report },
        ),
    }
}

/// Turns what an analyzer gave into what the caller gets.
pub fn complete(outcome: Result<Vec<LawkitResult>, String>) -> (r: Result<
    Vec<JsLawkitResult>,
    LawError,
>)
    ensures
        completes_to(outcome, r),
{
    match outcome {
        Ok(results) => {
            let ghost all = results@;
            let mut records: Vec<JsLawkitResult> = Vec::new();
            for result in it: results
                invariant
                    it.seq() == all,
                    records@.len() == it.index(),
                    forall|i: int|
                        0 <= i < records@.len() ==> is_record_of(#[trigger] records@[i], all[i]),
            {
                records.push(convert_lawkit_result(result));
            }
            Ok(records)
        },
        Err(report) => Err(LawError::AnalysisFailed { detail: report }),
    }
}

/// `serde_json::Value`: the data of a call, handed to the analyzer unread.
#[verifier::external_type_specification]
#[verifier::external_body]
pub struct ExJsonValue(serde_json::Value);

/// The resolved options as an analyzer is handed them.
pub open spec fn handed_options<'a>(options: Option<JsLawkitOptions>) -> Option<&'a LawkitOptions> {
    match options {
        Some(js) => Some(&resolved_options(js)),
        None => None,
    }
}

/// Runs one analysis from end to end.
///
/// Invalid options and an unknown identifier are reported as by `prepare`,
/// without running the analyzer. Otherwise the analyzer is run on the
/// selected law, the data as given and the resolved options, and what it
/// gives is turned into the caller's result as by `complete`.
pub fn law<F>(
    subcommand: &str,
    data_or_config: &serde_json::Value,
    options: Option<JsLawkitOptions>,
    analyzer: F,
) -> (r: Result<Vec<JsLawkitResult>, LawError>) where
    F: FnOnce(LawKind, &serde_json::Value, Option<&LawkitOptions>) -> Result<
        Vec<LawkitResult>,
        String,
    >,

    requires
        forall|kind: LawKind, given: Option<&LawkitOptions>|
            call_requires(analyzer, (kind, data_or_config, given)),
    ensures
        options_rejection(options) is Some || law_of_name(subcommand@) is None ==> r is Err
            && prepares_to(subcommand@, options, Err::<Dispatch, LawError>(r->Err_0)),
        options_rejection(options) is None && law_of_name(subcommand@) is Some ==> exists|
            outcome: Result<Vec<LawkitResult>, String>,
        |
            call_ensures(
                analyzer,
                (law_of_name(subcommand@).unwrap(), data_or_config, handed_options(options)),
                outcome,
            ) && completes_to(outcome, r),
{
    match prepare(subcommand, options) {
        Ok(dispatch) => {
            let outcome = analyzer(dispatch.kind, data_or_config, dispatch.options.as_ref());
            complete(outcome)
        },
        Err(e) => Err(e),
    }
}

} // verus!
