use zedi_gen::conformance::compute_conformance;
use zedi_gen::config::{Config, OutputFormat};
use zedi_gen::generator::{DocStamp, Generator};

fn sample() -> String {
    let mut s = String::new();
    s.push_str("ISA*00*          *00*          *ZZ*AAA          *ZZ*BBB          *200101*1253*^*00501*000000905*0*P*~");
    s.push_str("GS*HP*AAA*BBB*200101*1253*1*X*005010X221A1~");
    s.push_str("ST*835*0001~BPR*C*100.00*C*ACH***CTX*01*999999999*DA*999999999*200101~TRN*1*12345*98765~DTM*405*200101~");
    s.push_str("N1*PR*PAYER~N1*PE*PAYEE~CLP*1234*1*200*100**11*PAYER123~SVC*HC:200*150*100*0450*1~SE*12*0001~GE*1*1~IEA*1*000000905~");
    s
}

#[test]
fn test_compute_conformance_full() {
    let res = compute_conformance(&sample());
    assert_eq!(res.total, 12);
    assert_eq!(res.found, 12);
}

#[test]
fn test_compute_conformance_partial() {
    let sample = sample().replace("GE*1*1~IEA*1*000000905~", "");
    let res = compute_conformance(&sample);
    assert_eq!(res.total, 12);
    assert_eq!(res.found, 10);
}

#[test]
fn test_generated_document_is_conformant() {
    let config = Config {
        seed: Some(7),
        claim_count: 4,
        anomaly_rate: 0,
        output_format: OutputFormat::X12,
    };
    let mut generator = Generator::new(config);
    let stamp = DocStamp::from_parts(739252, 600, 1735689600);
    let output = generator.generate_output(&stamp);
    let res = compute_conformance(&output);
    assert_eq!(res.total, 12);
    assert_eq!(res.found, 12);
}
