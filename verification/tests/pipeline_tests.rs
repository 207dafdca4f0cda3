use zedi_gen::config::{Config, OutputFormat};
use zedi_gen::generator::{DocStamp, Generator};

#[test]
fn test_generator_creation() {
    let config = Config::default();
    assert!(config.claim_count > 0);
    assert_eq!(config.anomaly_rate, 10000);
    let _generator = Generator::new(config);
}

#[test]
fn fixed_seed_reproduces_structured_text_output() {
    let make = || {
        let config = Config {
            seed: Some(1234),
            claim_count: 5,
            anomaly_rate: 0,
            output_format: OutputFormat::X12,
        };
        let mut generator = Generator::new(config);
        let stamp = DocStamp::from_parts(739252, 615, 1735690000);
        generator.generate_output(&stamp)
    };
    let first = make();
    let second = make();
    assert!(!first.is_empty());
    assert_eq!(first, second);
}

#[test]
fn end_to_end_structure_counts() {
    let config = Config {
        seed: Some(42),
        claim_count: 3,
        anomaly_rate: 0,
        output_format: OutputFormat::X12,
    };
    let mut generator = Generator::new(config);
    let stamp = DocStamp::from_parts(739252, 615, 1735690000);
    let output = generator.generate_output(&stamp);

    let st_count = output.lines().filter(|l| l.starts_with("ST*835")).count();
    assert_eq!(st_count, 3);
    let isa_count = output.lines().filter(|l| l.starts_with("ISA*")).count();
    assert_eq!(isa_count, 1);
    let iea_lines: Vec<&str> = output.lines().filter(|l| l.starts_with("IEA*")).collect();
    assert_eq!(iea_lines.len(), 1);
    assert!(iea_lines[0].starts_with("IEA*1*"));
    let ge_lines: Vec<&str> = output.lines().filter(|l| l.starts_with("GE*")).collect();
    assert_eq!(ge_lines.len(), 1);
    assert!(ge_lines[0].starts_with("GE*3*"));
    let se_lines: Vec<&str> = output.lines().filter(|l| l.starts_with("SE*")).collect();
    assert_eq!(se_lines.len(), 3);
}

#[test]
fn json_output_is_valid_and_sized() {
    let config = Config {
        seed: Some(42),
        claim_count: 2,
        anomaly_rate: 0,
        output_format: OutputFormat::Json,
    };
    let mut generator = Generator::new(config);
    let stamp = DocStamp::from_parts(739252, 615, 1735690000);
    let output = generator.generate_output(&stamp);

    let json: serde_json::Value =
        serde_json::from_str(&output).expect("Output should be valid JSON");
    if let serde_json::Value::Array(items) = json {
        assert_eq!(items.len(), 2);
        for item in items {
            assert!(item.get("claim").is_some());
            assert!(item.get("anomalies").is_some());
            let claim = item.get("claim").unwrap();
            assert!(claim.get("claim_id").is_some());
            assert!(claim.get("service_lines").unwrap().is_array());
        }
    } else {
        panic!("Expected JSON array");
    }
}

#[test]
fn pretty_json_matches_compact_content() {
    let run = |format: OutputFormat| {
        let config = Config {
            seed: Some(9),
            claim_count: 2,
            anomaly_rate: 0,
            output_format: format,
        };
        let mut generator = Generator::new(config);
        let stamp = DocStamp::from_parts(739252, 615, 1735690000);
        generator.generate_output(&stamp)
    };
    let compact = run(OutputFormat::Json);
    let pretty = run(OutputFormat::JsonPretty);
    assert!(pretty.contains('\n'));
    assert!(!compact.contains('\n'));
    let a: serde_json::Value = serde_json::from_str(&compact).unwrap();
    let b: serde_json::Value = serde_json::from_str(&pretty).unwrap();
    assert_eq!(a.as_array().unwrap().len(), 2);
    assert_eq!(b.as_array().unwrap().len(), 2);
    let ca = a[0]["claim"]["claim_id"].as_str().unwrap();
    let cb = b[0]["claim"]["claim_id"].as_str().unwrap();
    assert_eq!(ca, cb);
}

#[test]
fn batch_never_flags_an_id_twice() {
    let config = Config {
        seed: Some(42),
        claim_count: 100,
        anomaly_rate: 1_000_000,
        output_format: OutputFormat::Json,
    };
    let mut generator = Generator::new(config);
    let results = generator.generate_batch(739252);
    assert_eq!(results.len(), 100);
    let mut flagged: Vec<String> = Vec::new();
    for result in &results {
        for anomaly in &result.anomalies {
            if anomaly.anomaly_type == zedi_gen::anomalies::AnomalyType::DuplicateClaim {
                let id = anomaly.original_value.clone().expect("flagged id recorded");
                assert!(!flagged.contains(&id), "id {} flagged twice", id);
                flagged.push(id);
            }
        }
    }
    let json = generator.render_json(&results, false);
    let parsed: serde_json::Value = serde_json::from_str(&json).unwrap();
    assert_eq!(parsed.as_array().unwrap().len(), 100);
}
