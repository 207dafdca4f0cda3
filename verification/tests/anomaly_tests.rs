use zedi_gen::anomalies::{AnomalyConfig, AnomalyInjector, AnomalyType};
use zedi_gen::claims::ClaimGenerator;
use zedi_gen::population::PopulationGenerator;
use zedi_gen::rng::PPM_SCALE;

fn sample_claim(seed: u64) -> zedi_gen::claims::Claim {
    let mut pop_gen = PopulationGenerator::new(Some(seed));
    let mut claim_gen = ClaimGenerator::new(Some(seed));
    let patient = pop_gen.generate_person();
    let provider = pop_gen.generate_provider();
    claim_gen.generate_claim(patient, provider, None)
}

#[test]
fn test_anomaly_injection() {
    let config = AnomalyConfig {
        base_rate: PPM_SCALE,
        type_rates: vec![(AnomalyType::DuplicateClaim, PPM_SCALE)],
        log_anomalies: true,
    };

    let mut injector = AnomalyInjector::new(config, Some(42));
    let claim = sample_claim(42);

    let result = injector.inject_anomalies(claim);

    assert!(!result.anomalies.is_empty());

    if let Some(anomaly) = result.anomalies.first() {
        assert_eq!(anomaly.anomaly_type, AnomalyType::DuplicateClaim);
        assert_eq!(anomaly.description, "Duplicate claim ID");
        assert_eq!(anomaly.field, Some("claim_id".to_string()));
    } else {
        panic!("Expected at least one anomaly");
    }
}

#[test]
fn zero_base_rate_never_injects() {
    let config = AnomalyConfig {
        base_rate: 0,
        ..Default::default()
    };
    let mut injector = AnomalyInjector::new(config, Some(42));
    for seed in 0..20u64 {
        let claim = sample_claim(seed);
        let claim_id = claim.claim_id.clone();
        let total_payment = claim.total_payment;
        let result = injector.inject_anomalies(claim);
        assert!(result.anomalies.is_empty());
        assert_eq!(result.claim.claim_id, claim_id);
        assert_eq!(result.claim.total_payment, total_payment);
    }
}

#[test]
fn certain_single_type_always_applies() {
    let config = AnomalyConfig {
        base_rate: PPM_SCALE,
        type_rates: vec![(AnomalyType::InvalidValue, PPM_SCALE)],
        log_anomalies: false,
    };
    let mut injector = AnomalyInjector::new(config, Some(7));
    for seed in 0..10u64 {
        let claim = sample_claim(seed);
        let total_charge = claim.total_charge;
        let result = injector.inject_anomalies(claim);
        assert_eq!(result.anomalies.len(), 1);
        assert_eq!(result.anomalies[0].anomaly_type, AnomalyType::InvalidValue);
        assert_eq!(result.claim.total_payment, total_charge + 1000);
    }
}

#[test]
fn duplicate_flagged_on_first_occurrence_only() {
    let config = AnomalyConfig {
        base_rate: PPM_SCALE,
        type_rates: vec![(AnomalyType::DuplicateClaim, PPM_SCALE)],
        log_anomalies: false,
    };
    let mut injector = AnomalyInjector::new(config, Some(3));
    let claim = sample_claim(3);
    let twin = claim.clone();

    let first = injector.inject_anomalies(claim);
    let dup_first = first
        .anomalies
        .iter()
        .filter(|a| a.anomaly_type == AnomalyType::DuplicateClaim)
        .count();
    assert_eq!(dup_first, 1);

    let second = injector.inject_anomalies(twin);
    let dup_second = second
        .anomalies
        .iter()
        .filter(|a| a.anomaly_type == AnomalyType::DuplicateClaim)
        .count();
    assert_eq!(dup_second, 0);
}

#[test]
fn duplicate_scan_never_reflags_across_a_run() {
    let config = AnomalyConfig {
        base_rate: PPM_SCALE,
        type_rates: vec![(AnomalyType::DuplicateClaim, PPM_SCALE)],
        log_anomalies: false,
    };
    let mut injector = AnomalyInjector::new(config, Some(42));
    let mut pop_gen = PopulationGenerator::new(Some(42));
    let mut claim_gen = ClaimGenerator::new(Some(42));

    let mut flagged: Vec<String> = Vec::new();
    let mut results = Vec::new();
    for _ in 0..10 {
        let patient = pop_gen.generate_person();
        let provider = pop_gen.generate_provider();
        let claim = claim_gen.generate_claim(patient, provider, None);
        let result = injector.inject_anomalies(claim);
        for a in &result.anomalies {
            if a.anomaly_type == AnomalyType::DuplicateClaim {
                let id = a.original_value.clone().expect("flagged id recorded");
                assert!(
                    !flagged.contains(&id),
                    "claim id {} flagged as duplicate twice",
                    id
                );
                flagged.push(id);
            }
        }
        results.push(result);
    }
    let json = zedi_gen::json::render_json_results(&results, false);
    for id in &flagged {
        assert!(json.contains(id.as_str()));
    }
}

#[test]
fn mutators_change_the_documented_fields() {
    let cases = [
        AnomalyType::MissingField,
        AnomalyType::InvalidDateFormat,
        AnomalyType::InvalidProcedureCode,
        AnomalyType::InvalidModifierCombination,
        AnomalyType::AgeGenderMismatch,
        AnomalyType::InvalidProvider,
        AnomalyType::InvalidPatientInfo,
        AnomalyType::MissingDocumentation,
    ];
    for t in cases {
        let config = AnomalyConfig {
            base_rate: PPM_SCALE,
            type_rates: vec![(t, PPM_SCALE)],
            log_anomalies: false,
        };
        let mut injector = AnomalyInjector::new(config, Some(13));
        let claim = sample_claim(13);
        let original_gender = claim.patient.gender.clone();
        let result = injector.inject_anomalies(claim);
        assert_eq!(result.anomalies.len(), 1, "kind {:?}", t);
        assert_eq!(result.anomalies[0].anomaly_type, t);
        match t {
            AnomalyType::MissingField => assert!(result.claim.claim_id.is_empty()),
            AnomalyType::InvalidDateFormat => {
                assert_eq!(result.claim.service_lines[0].service_date, "01/01/1970")
            }
            AnomalyType::InvalidProcedureCode => {
                assert_eq!(result.claim.service_lines[0].procedure_code, "INVALID_CODE")
            }
            AnomalyType::InvalidModifierCombination => assert_eq!(
                result.claim.service_lines[0].modifiers,
                vec!["AAA".to_string(), "AAA".to_string()]
            ),
            AnomalyType::AgeGenderMismatch => {
                let expected = if original_gender == "M" { "F" } else { "M" };
                assert_eq!(result.claim.patient.gender, expected);
            }
            AnomalyType::InvalidProvider => {
                assert_eq!(result.claim.billing_provider.npi, "000")
            }
            AnomalyType::InvalidPatientInfo => {
                assert_eq!(result.claim.patient.date_of_birth, "2010-13-40")
            }
            AnomalyType::MissingDocumentation => {
                assert!(result.anomalies[0].field.is_none())
            }
            _ => unreachable!(),
        }
    }
}
