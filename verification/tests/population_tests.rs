use chrono::Datelike;
use zedi_gen::population::PopulationGenerator;
use zedi_gen::vocab::Vocabularies;

#[test]
fn test_person_generation() {
    let mut generator = PopulationGenerator::new(Some(42));
    let person = generator.generate_person();

    assert!(!person.id.is_empty());
    assert_eq!(person.id.len(), 36);
    assert!(!person.first_name.is_empty());
    assert!(!person.last_name.is_empty());
    assert!(!person.date_of_birth.is_empty());
    assert!(!person.gender.is_empty());
    assert!(!person.address.line1.is_empty());
    assert!(!person.address.city.is_empty());
    assert!(!person.address.state.is_empty());
    assert!(!person.address.zip_code.is_empty());
}

#[test]
fn test_provider_generation() {
    let mut generator = PopulationGenerator::new(Some(42));
    let provider = generator.generate_provider();

    assert_eq!(provider.npi.len(), 10);
    assert!(!provider.provider_type.is_empty());
    assert!(!provider.name.is_empty());
    assert!(!provider.address.line1.is_empty());
    assert!(!provider.address.city.is_empty());
    assert!(!provider.address.state.is_empty());
    assert!(!provider.address.zip_code.is_empty());
    assert!(!provider.taxonomy_codes.is_empty());
}

#[test]
fn person_age_within_bounds() {
    let mut generator = PopulationGenerator::new(Some(11));
    let today = chrono::Utc::now().date_naive().num_days_from_ce();
    for _ in 0..20 {
        let person = generator.generate_person();
        let dob = chrono::NaiveDate::parse_from_str(&person.date_of_birth, "%Y-%m-%d")
            .expect("date of birth parses as an ISO date");
        let age_days = today - dob.num_days_from_ce();
        assert!(age_days >= 18 * 365, "age {} too small", age_days);
        assert!(age_days <= 90 * 365, "age {} too large", age_days);
    }
}

#[test]
fn npi_is_ten_digits() {
    let mut generator = PopulationGenerator::new(Some(5));
    for _ in 0..20 {
        let provider = generator.generate_provider();
        assert_eq!(provider.npi.len(), 10);
        assert!(provider.npi.chars().all(|c| c.is_ascii_digit()));
    }
}

#[test]
fn empty_vocabulary_falls_back_to_synthesized_names() {
    let vocab = Vocabularies::from_lists(
        Vec::new(),
        Vec::new(),
        Vec::new(),
        Vec::new(),
        Vec::new(),
        Vec::new(),
    );
    let mut generator = PopulationGenerator::with_vocabularies(Some(9), vocab);
    let person = generator.generate_person();
    assert!(!person.first_name.is_empty());
    assert!(!person.last_name.is_empty());
    assert_eq!(person.address.city, "Anytown");
    assert_eq!(person.address.state, "CA");
    assert_eq!(person.address.zip_code, "12345");
    let provider = generator.generate_provider();
    assert_eq!(provider.provider_type, "General Practice");
    assert_eq!(provider.taxonomy_codes, vec!["207Q00000X".to_string()]);
}
