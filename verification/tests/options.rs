use lawkit_js::{
    build_lawkit_options, parse_seed, ConfigField, JsLawkitOptions, LawError, LawkitOptions,
    LawkitSpecificOptions, OutputFormat,
};

fn seed_only(text: &str) -> JsLawkitOptions {
    JsLawkitOptions { generate_seed: Some(text.to_string()), ..JsLawkitOptions::default() }
}

#[test]
fn no_options_resolve_to_the_empty_configuration() {
    let resolved = build_lawkit_options(JsLawkitOptions::default());
    assert_eq!(resolved, Ok(LawkitOptions::default()));
}

#[test]
fn generic_options_are_carried_over() {
    let js = JsLawkitOptions {
        ignore_keys_regex: Some("^tmp_.*$".to_string()),
        path_filter: Some("sales".to_string()),
        output_format: Some("json".to_string()),
        show_details: Some(true),
        show_recommendations: Some(false),
        use_memory_optimization: Some(true),
        batch_size: Some(4096),
        ..JsLawkitOptions::default()
    };
    let want = LawkitOptions {
        ignore_keys_regex: Some("^tmp_.*$".to_string()),
        path_filter: Some("sales".to_string()),
        output_format: Some(OutputFormat::Json),
        show_details: Some(true),
        show_recommendations: Some(false),
        use_memory_optimization: Some(true),
        batch_size: Some(4096),
        lawkit_options: None,
    };
    assert_eq!(build_lawkit_options(js), Ok(want));
}

#[test]
fn one_law_specific_option_populates_the_sub_record() {
    let js = JsLawkitOptions { benford_base: Some(10), ..JsLawkitOptions::default() };
    let want = LawkitOptions {
        lawkit_options: Some(
            LawkitSpecificOptions { benford_base: Some(10), ..LawkitSpecificOptions::default() },
        ),
        ..LawkitOptions::default()
    };
    assert_eq!(build_lawkit_options(js), Ok(want));
}

#[test]
fn every_law_specific_option_is_carried_over() {
    let js = JsLawkitOptions {
        risk_threshold: Some("high".to_string()),
        confidence_level: Some(0.95f64.to_bits()),
        analysis_threshold: Some(0.5f64.to_bits()),
        significance_level: Some(0.05f64.to_bits()),
        min_sample_size: Some(30),
        enable_outlier_detection: Some(true),
        benford_digits: Some("both".to_string()),
        benford_base: Some(16),
        pareto_ratio: Some(0.8f64.to_bits()),
        pareto_category_limit: Some(12),
        zipf_rank_limit: Some(100),
        zipf_frequency_cutoff: Some(2.0f64.to_bits()),
        generate_count: Some(1000),
        generate_range_min: Some(0.0f64.to_bits()),
        generate_range_max: Some(100.0f64.to_bits()),
        generate_seed: Some("42".to_string()),
        enable_japanese_numerals: Some(true),
        enable_international_numerals: Some(false),
        enable_parallel_processing: Some(true),
        memory_limit_mb: Some(512),
        ..JsLawkitOptions::default()
    };
    let want = LawkitSpecificOptions {
        risk_threshold: Some("high".to_string()),
        confidence_level: Some(0.95f64.to_bits()),
        analysis_threshold: Some(0.5f64.to_bits()),
        significance_level: Some(0.05f64.to_bits()),
        min_sample_size: Some(30),
        enable_outlier_detection: Some(true),
        benford_digits: Some("both".to_string()),
        benford_base: Some(16),
        pareto_ratio: Some(0.8f64.to_bits()),
        pareto_category_limit: Some(12),
        zipf_rank_limit: Some(100),
        zipf_frequency_cutoff: Some(2.0f64.to_bits()),
        generate_count: Some(1000),
        generate_range_min: Some(0.0f64.to_bits()),
        generate_range_max: Some(100.0f64.to_bits()),
        generate_seed: Some(42),
        enable_japanese_numerals: Some(true),
        enable_international_numerals: Some(false),
        enable_parallel_processing: Some(true),
        memory_limit_mb: Some(512),
    };
    let resolved = build_lawkit_options(js).unwrap();
    assert_eq!(resolved.lawkit_options, Some(want));
    assert_eq!(resolved.batch_size, None);
}

#[test]
fn a_false_flag_still_counts_as_given() {
    let js =
        JsLawkitOptions { enable_outlier_detection: Some(false), ..JsLawkitOptions::default() };
    let resolved = build_lawkit_options(js).unwrap();
    assert_eq!(
        resolved.lawkit_options,
        Some(LawkitSpecificOptions {
            enable_outlier_detection: Some(false),
            ..LawkitSpecificOptions::default()
        })
    );
}

#[test]
fn a_pattern_that_does_not_compile_is_rejected() {
    let js = JsLawkitOptions {
        ignore_keys_regex: Some("(unclosed".to_string()),
        ..JsLawkitOptions::default()
    };
    match build_lawkit_options(js) {
        Err(LawError::InvalidConfiguration { field, detail }) => {
            assert_eq!(field, ConfigField::IgnoreKeysRegex);
            assert!(!detail.is_empty());
            assert_ne!(detail, "(unclosed");
            assert!(detail.contains("unclosed group"));
        }
        other => panic!("unexpected outcome: {:?}", other),
    }
}

#[test]
fn a_pattern_that_compiles_is_kept_as_given() {
    let js = JsLawkitOptions {
        ignore_keys_regex: Some("[a-z]+_id".to_string()),
        ..JsLawkitOptions::default()
    };
    let resolved = build_lawkit_options(js).unwrap();
    assert_eq!(resolved.ignore_keys_regex, Some("[a-z]+_id".to_string()));
}

#[test]
fn an_unknown_output_format_is_rejected() {
    let js =
        JsLawkitOptions { output_format: Some("xml".to_string()), ..JsLawkitOptions::default() };
    let failure = build_lawkit_options(js).unwrap_err();
    assert_eq!(
        failure,
        LawError::InvalidConfiguration {
            field: ConfigField::OutputFormat,
            detail: "Invalid output format: xml".to_string(),
        }
    );
    assert_eq!(failure.message(), "Invalid output format: Invalid output format: xml");
    assert!(failure.is_invalid_argument());
}

#[test]
fn output_formats_are_read_whatever_their_case() {
    let cases = [
        ("lawkit", OutputFormat::Lawkit),
        ("json", OutputFormat::Json),
        ("JSON", OutputFormat::Json),
        ("yaml", OutputFormat::Yaml),
        ("yml", OutputFormat::Yaml),
        ("csv", OutputFormat::Csv),
        ("Text", OutputFormat::Text),
        ("txt", OutputFormat::Text),
    ];
    for (text, format) in cases {
        let js = JsLawkitOptions {
            output_format: Some(text.to_string()),
            ..JsLawkitOptions::default()
        };
        assert_eq!(build_lawkit_options(js).unwrap().output_format, Some(format));
    }
}

#[test]
fn the_pattern_is_looked_at_before_the_format() {
    let js = JsLawkitOptions {
        ignore_keys_regex: Some("[".to_string()),
        output_format: Some("xml".to_string()),
        ..JsLawkitOptions::default()
    };
    match build_lawkit_options(js) {
        Err(LawError::InvalidConfiguration { field, .. }) => {
            assert_eq!(field, ConfigField::IgnoreKeysRegex)
        }
        other => panic!("unexpected outcome: {:?}", other),
    }
}

#[test]
fn a_seed_is_read_from_decimal_text() {
    let cases: [(&str, u64); 6] = [
        ("42", 42),
        ("0", 0),
        ("+7", 7),
        ("007", 7),
        ("18446744073709551615", u64::MAX),
        ("000000000000000000000000000001", 1),
    ];
    for (text, seed) in cases {
        let resolved = build_lawkit_options(seed_only(text)).unwrap();
        let specific = resolved.lawkit_options.expect("a seed is a law-specific option");
        assert_eq!(specific.generate_seed, Some(seed));
    }
}

#[test]
fn text_that_is_no_seed_is_passed_over() {
    let cases =
        ["abc", "-1", "", "+", "++1", "1.5", " 1", "1 ", "1_000", "0x10", "18446744073709551616"];
    for text in cases {
        let resolved = build_lawkit_options(seed_only(text));
        assert_eq!(resolved, Ok(LawkitOptions::default()));
    }
}

#[test]
fn text_that_is_no_seed_leaves_the_other_options_alone() {
    let js = JsLawkitOptions {
        generate_count: Some(5),
        generate_seed: Some("forty-two".to_string()),
        ..JsLawkitOptions::default()
    };
    let resolved = build_lawkit_options(js).unwrap();
    assert_eq!(
        resolved.lawkit_options,
        Some(LawkitSpecificOptions { generate_count: Some(5), ..LawkitSpecificOptions::default() })
    );
}

#[test]
fn resolving_twice_gives_the_same_configuration() {
    let js = JsLawkitOptions {
        ignore_keys_regex: Some("^_".to_string()),
        output_format: Some("yaml".to_string()),
        pareto_ratio: Some(0.8f64.to_bits()),
        generate_seed: Some("42".to_string()),
        ..JsLawkitOptions::default()
    };
    assert_eq!(build_lawkit_options(js.clone()), build_lawkit_options(js));
    let bad = JsLawkitOptions {
        ignore_keys_regex: Some("a{2,1}".to_string()),
        ..JsLawkitOptions::default()
    };
    let first = build_lawkit_options(bad.clone());
    assert!(first.is_err());
    assert_eq!(first, build_lawkit_options(bad));
}

fn outside(field: ConfigField, words: &str) -> Result<LawkitOptions, LawError> {
    Err(LawError::InvalidConfiguration { field, detail: words.to_string() })
}

#[test]
fn a_confidence_level_lies_strictly_between_zero_and_one() {
    for good in [0.5f64, 0.95, 0.999_999, f64::MIN_POSITIVE, 5e-324] {
        let js = JsLawkitOptions {
            confidence_level: Some(good.to_bits()),
            ..JsLawkitOptions::default()
        };
        let resolved = build_lawkit_options(js).unwrap();
        assert_eq!(resolved.lawkit_options.unwrap().confidence_level, Some(good.to_bits()));
    }
    for bad in [0.0f64, -0.0, 1.0, 1.5, -0.5, f64::NAN, -f64::NAN, f64::INFINITY, f64::NEG_INFINITY]
    {
        let js = JsLawkitOptions {
            confidence_level: Some(bad.to_bits()),
            ..JsLawkitOptions::default()
        };
        assert_eq!(
            build_lawkit_options(js),
            outside(ConfigField::ConfidenceLevel, "must be greater than 0 and less than 1")
        );
    }
}

#[test]
fn a_pareto_ratio_lies_above_zero_and_not_above_one() {
    for good in [0.8f64, 1.0, 0.2, 1e-300] {
        let js =
            JsLawkitOptions { pareto_ratio: Some(good.to_bits()), ..JsLawkitOptions::default() };
        let resolved = build_lawkit_options(js).unwrap();
        assert_eq!(resolved.lawkit_options.unwrap().pareto_ratio, Some(good.to_bits()));
    }
    for bad in [0.0f64, -0.0, 1.000_000_000_000_000_2, 80.0, -0.8, f64::NAN, f64::INFINITY] {
        let js =
            JsLawkitOptions { pareto_ratio: Some(bad.to_bits()), ..JsLawkitOptions::default() };
        assert_eq!(
            build_lawkit_options(js),
            outside(ConfigField::ParetoRatio, "must be greater than 0 and at most 1")
        );
    }
}

#[test]
fn every_other_number_is_finite() {
    for good in [0.0f64, -0.0, 1.0, -1e308, f64::MAX, f64::MIN, 5e-324, 0.05] {
        let b = Some(good.to_bits());
        let js = JsLawkitOptions {
            analysis_threshold: b,
            significance_level: b,
            zipf_frequency_cutoff: b,
            generate_range_min: b,
            generate_range_max: b,
            ..JsLawkitOptions::default()
        };
        let specific = build_lawkit_options(js).unwrap().lawkit_options.unwrap();
        assert_eq!(specific.analysis_threshold, b);
        assert_eq!(specific.generate_range_max, b);
    }
    for bad in [f64::NAN, -f64::NAN, f64::INFINITY, f64::NEG_INFINITY] {
        let b = Some(bad.to_bits());
        let words = "must be a finite number";
        let d = JsLawkitOptions::default;
        assert_eq!(
            build_lawkit_options(JsLawkitOptions { analysis_threshold: b, ..d() }),
            outside(ConfigField::AnalysisThreshold, words)
        );
        assert_eq!(
            build_lawkit_options(JsLawkitOptions { significance_level: b, ..d() }),
            outside(ConfigField::SignificanceLevel, words)
        );
        assert_eq!(
            build_lawkit_options(JsLawkitOptions { zipf_frequency_cutoff: b, ..d() }),
            outside(ConfigField::ZipfFrequencyCutoff, words)
        );
        assert_eq!(
            build_lawkit_options(JsLawkitOptions { generate_range_min: b, ..d() }),
            outside(ConfigField::GenerateRangeMin, words)
        );
        assert_eq!(
            build_lawkit_options(JsLawkitOptions { generate_range_max: b, ..d() }),
            outside(ConfigField::GenerateRangeMax, words)
        );
    }
}

#[test]
fn the_first_failure_is_the_one_reported() {
    let nan = Some(f64::NAN.to_bits());
    let js = JsLawkitOptions {
        output_format: Some("pdf".to_string()),
        confidence_level: nan,
        ..JsLawkitOptions::default()
    };
    assert_eq!(
        build_lawkit_options(js),
        outside(ConfigField::OutputFormat, "Invalid output format: pdf")
    );
    let js = JsLawkitOptions {
        pareto_ratio: Some(2.0f64.to_bits()),
        generate_range_max: nan,
        significance_level: nan,
        ..JsLawkitOptions::default()
    };
    assert_eq!(
        build_lawkit_options(js),
        outside(ConfigField::SignificanceLevel, "must be a finite number")
    );
}

#[test]
fn a_number_outside_its_domain_has_a_message() {
    let js = JsLawkitOptions { pareto_ratio: Some(0), ..JsLawkitOptions::default() };
    let failure = build_lawkit_options(js).unwrap_err();
    assert_eq!(failure.message(), "Invalid Pareto ratio: must be greater than 0 and at most 1");
    assert!(failure.is_invalid_argument());
    assert_eq!(ConfigField::ConfidenceLevel.prefix(), "Invalid confidence level: ");
    assert_eq!(ConfigField::IgnoreKeysRegex.prefix(), "Invalid regex: ");
    assert_eq!(ConfigField::GenerateRangeMin.prefix(), "Invalid generation range minimum: ");
}

#[test]
fn seeds_are_parsed_as_unsigned_decimals() {
    assert_eq!(parse_seed("42"), Some(42));
    assert_eq!(parse_seed("+42"), Some(42));
    assert_eq!(parse_seed("0"), Some(0));
    assert_eq!(parse_seed("+0"), Some(0));
    assert_eq!(parse_seed("0000"), Some(0));
    assert_eq!(parse_seed("1234567890"), Some(1_234_567_890));
    assert_eq!(parse_seed("18446744073709551615"), Some(u64::MAX));
    assert_eq!(parse_seed("018446744073709551615"), Some(u64::MAX));
    for text in [
        "",
        "+",
        "-",
        "-0",
        "-42",
        "+-1",
        "4+2",
        "42+",
        "4 2",
        "42\n",
        "4.2",
        "4e2",
        "forty-two",
        "18446744073709551616",
        "18446744073709551620",
        "99999999999999999999",
        "100000000000000000000",
        "\u{0664}\u{0662}",
        "\u{ff14}\u{ff12}",
    ] {
        assert_eq!(parse_seed(text), None);
    }
}

#[test]
fn seeds_are_parsed_as_the_standard_library_parses_them() {
    for text in [
        "7", "+7", "-7", "", "+", "007", "7_000", " 7", "18446744073709551615",
        "18446744073709551616", "184467440737095516150", "0x7", "٧", "+007", "++7", "7+",
    ] {
        assert_eq!(parse_seed(text), text.parse::<u64>().ok());
    }
}
