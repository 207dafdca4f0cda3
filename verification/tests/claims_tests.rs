use zedi_gen::claims::{ClaimGenerator, ClaimStatus};
use zedi_gen::population::PopulationGenerator;

#[test]
fn test_claim_generation() {
    let mut claim_gen = ClaimGenerator::new(Some(42));
    let mut pop_gen = PopulationGenerator::new(Some(42));

    let patient = pop_gen.generate_person();
    let provider = pop_gen.generate_provider();

    let claim = claim_gen.generate_claim(patient, provider, None);

    assert!(!claim.claim_id.is_empty());
    assert!(!claim.service_lines.is_empty());
    assert!(claim.total_charge > 0);
    assert!(claim.patient_responsibility <= claim.total_charge - claim.total_payment);
}

#[test]
fn claim_totals_are_line_sums() {
    let mut claim_gen = ClaimGenerator::new(Some(1));
    let mut pop_gen = PopulationGenerator::new(Some(1));
    for _ in 0..10 {
        let patient = pop_gen.generate_person();
        let provider = pop_gen.generate_provider();
        let claim = claim_gen.generate_claim(patient, provider, None);

        let charge: u64 = claim.service_lines.iter().map(|l| l.charge_amount).sum();
        let payment: u64 = claim.service_lines.iter().map(|l| l.payment_amount).sum();
        let adjustment: u64 = claim.service_lines.iter().map(|l| l.adjustment_amount).sum();
        assert_eq!(claim.total_charge, charge);
        assert_eq!(claim.total_payment, payment);
        assert_eq!(claim.total_adjustment, adjustment);
        assert_eq!(
            claim.patient_responsibility,
            (claim.total_charge - claim.total_payment) / 2
        );
        let expected_status = if claim.total_payment == 0 {
            ClaimStatus::Denied
        } else if claim.total_payment < claim.total_charge {
            ClaimStatus::Partial
        } else {
            ClaimStatus::Paid
        };
        assert_eq!(claim.status, expected_status);
    }
}

#[test]
fn claim_id_has_fixed_shape() {
    let mut claim_gen = ClaimGenerator::new(Some(3));
    let mut pop_gen = PopulationGenerator::new(Some(3));
    let patient = pop_gen.generate_person();
    let provider = pop_gen.generate_provider();
    let claim = claim_gen.generate_claim(patient, provider, None);
    assert_eq!(claim.claim_id.len(), 11);
    assert!(claim.claim_id.starts_with("CLM"));
    assert!(claim.claim_id[3..].chars().all(|c| c.is_ascii_digit()));
}

#[test]
fn line_counts_and_amounts_are_in_range() {
    let mut claim_gen = ClaimGenerator::new(Some(8));
    let mut pop_gen = PopulationGenerator::new(Some(8));
    for _ in 0..10 {
        let patient = pop_gen.generate_person();
        let provider = pop_gen.generate_provider();
        let claim = claim_gen.generate_claim(patient, provider, None);
        assert!(!claim.service_lines.is_empty());
        assert!(claim.service_lines.len() <= 5);
        for (i, line) in claim.service_lines.iter().enumerate() {
            assert_eq!(line.line_number as usize, i + 1);
            assert!(line.payment_amount <= line.charge_amount);
            assert_eq!(line.adjustment_amount, line.charge_amount - line.payment_amount);
            assert_eq!(line.paid_amount, line.payment_amount);
            assert!(line.modifiers.len() <= 2);
            assert_eq!(line.place_of_service, "11");
        }
    }
}
