use commayte::system::{
    determine_performance_level, get_system_info, level_from_lowered, PerformanceLevel,
    SystemSpecs,
};

#[test]
fn test_performance_level_determination() {
    let very_high_end = determine_performance_level(16, 64, "Intel Core i9-13900K");
    assert!(matches!(very_high_end, PerformanceLevel::VeryHigh));

    let high_end = determine_performance_level(8, 16, "Intel Core i7-10700K");
    assert!(matches!(high_end, PerformanceLevel::High));

    let good = determine_performance_level(6, 12, "Intel Core i5-10600K");
    assert!(matches!(good, PerformanceLevel::Good));

    let medium = determine_performance_level(4, 8, "Intel Core i5-8400");
    assert!(matches!(medium, PerformanceLevel::Medium));

    let low_end = determine_performance_level(2, 4, "Intel Celeron N4000");
    println!("Low-end test result: {:?}", low_end);
    assert!(matches!(low_end, PerformanceLevel::Low));

    let very_low_end = determine_performance_level(1, 2, "Intel Atom N270");
    assert!(matches!(very_low_end, PerformanceLevel::VeryLow));
}

#[test]
fn test_prompt_length_recommendations() {
    let very_high_specs = SystemSpecs {
        cpu_cores: Some(16),
        cpu_model: Some("Intel Core i9".to_string()),
        memory_gb: Some(64),
        gpu_model: Some("RTX 4090".to_string()),
        os_info: Some("Linux".to_string()),
        performance_level: PerformanceLevel::VeryHigh,
    };

    assert_eq!(very_high_specs.get_recommended_prompt_length(), 6000);
    assert_eq!(very_high_specs.get_recommended_max_tokens(), 3000);

    let high_specs = SystemSpecs {
        cpu_cores: Some(8),
        cpu_model: Some("Intel Core i7".to_string()),
        memory_gb: Some(16),
        gpu_model: Some("RTX 3080".to_string()),
        os_info: Some("Linux".to_string()),
        performance_level: PerformanceLevel::High,
    };

    assert_eq!(high_specs.get_recommended_prompt_length(), 4000);
    assert_eq!(high_specs.get_recommended_max_tokens(), 2000);

    let very_low_specs = SystemSpecs {
        cpu_cores: Some(1),
        cpu_model: Some("Intel Atom".to_string()),
        memory_gb: Some(2),
        gpu_model: Some("Intel HD Graphics".to_string()),
        os_info: Some("Linux".to_string()),
        performance_level: PerformanceLevel::VeryLow,
    };

    assert_eq!(very_low_specs.get_recommended_prompt_length(), 500);
    assert_eq!(very_low_specs.get_recommended_max_tokens(), 250);
}

#[test]
fn upper_case_model_is_matched_after_lowering() {
    // Only the lowered text contains "i9": the lowering call must take effect.
    assert_eq!(determine_performance_level(16, 64, "INTEL CORE I9-13900K"), PerformanceLevel::VeryHigh);
    assert_eq!(level_from_lowered(16, 64, "INTEL CORE I9-13900K"), PerformanceLevel::Medium);
    assert_eq!(level_from_lowered(16, 64, "amd ryzen 9 7950x"), PerformanceLevel::VeryHigh);
}

#[test]
fn budgets_follow_the_tier() {
    let specs = SystemSpecs::unknown();
    assert_eq!(specs.get_max_total_content(), 3000);
    assert_eq!(specs.get_max_file_content(), 700);
    let budget = specs.filter_budget();
    assert_eq!(budget.per_file, 700);
    assert_eq!(budget.total, 3000);
}

#[test]
fn probed_values_give_specs() {
    let specs = SystemSpecs::new(8, "Apple M1".to_string(), 16, None, "macOS".to_string());
    assert_eq!(specs.performance_level, PerformanceLevel::High);
    assert_eq!(specs.get_max_total_content(), 5000);
    assert_eq!(specs.get_max_file_content(), 1200);
    let missing = get_system_info(8, Some("Apple M1".to_string()), None, None, Some("macOS".to_string()));
    assert!(missing.is_none());
    let found = get_system_info(2, Some("AMD Sempron".to_string()), Some(4), None, Some("Linux".to_string()));
    assert_eq!(found.unwrap().performance_level, PerformanceLevel::VeryLow);
}
