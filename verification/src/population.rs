//! The synthetic population: people and providers drawn from a seeded random
//! source and the loaded vocabularies. Draw order within one generation call
//! is fixed (gender, first name, last name, age, city, street fields) so that
//! a seeded run is reproducible.

use vstd::prelude::*;
use fake::Fake;
use crate::calendar::{is_date_string_for, MAX_DAY_NUMBER};
use crate::clock::{today_day_number, EPOCH_DAY_NUMBER};
use crate::rng::{draw_range, draw_bernoulli_ppm, rng_below, rng_from_seed, rng_from_entropy};
use crate::strfmt::{
    dec_digits, is_dec_digit, lemma_dec_digits_len, lemma_dec_digits_are_digits, push_char,
    u64_to_dec,
};
use crate::vocab::{contains_view, is_default_vocab, Vocabularies};

verus! {

/// A postal address.
#[derive(Debug, Clone)]
pub struct Address {
    pub line1: String,
    pub line2: Option<String>,
    pub city: String,
    pub state: String,
    pub zip_code: String,
}

/// A synthetic patient.
#[derive(Debug, Clone)]
pub struct Person {
    pub id: String,
    pub first_name: String,
    pub last_name: String,
    pub date_of_birth: String,
    pub gender: String,
    pub address: Address,
}

/// A synthetic provider.
#[derive(Debug, Clone)]
pub struct Provider {
    pub npi: String,
    pub provider_type: String,
    pub name: String,
    pub address: Address,
    pub taxonomy_codes: Vec<String>,
}

/// The date string renders a day that lies the generated-age window before
/// the day numbered `td`.
pub open spec fn dob_in_window(s: Seq<char>, td: int, dob: int) -> bool {
    td - MAX_AGE_DAYS <= dob <= td - MIN_AGE_DAYS && is_date_string_for(s, dob)
}

/// The non-emptiness that generation promises of an address.
pub open spec fn address_generated_wf(a: Address) -> bool {
    a.line1@.len() > 0 && a.city@.len() > 0 && a.state@.len() > 0 && a.zip_code@.len() > 0
}

/// Youngest generated age, in days.
pub const MIN_AGE_DAYS: u32 = 18 * 365;

/// Oldest generated age, in days.
pub const MAX_AGE_DAYS: u32 = 90 * 365;

/// Relies on `fake`'s `FirstName` (en locale) via `Fake::fake_with_rng`:
/// picks from a fixed, non-empty word list.
#[verifier::external_body]
fn fake_first_name(rng: &mut rand_chacha::ChaCha8Rng) -> (r: String)
    ensures
        r@.len() > 0,
{
    fake::faker::name::en::FirstName().fake_with_rng(rng)
}

/// Relies on `fake`'s `LastName` (en locale) via `Fake::fake_with_rng`:
/// picks from a fixed, non-empty word list.
#[verifier::external_body]
fn fake_last_name(rng: &mut rand_chacha::ChaCha8Rng) -> (r: String)
    ensures
        r@.len() > 0,
{
    fake::faker::name::en::LastName().fake_with_rng(rng)
}

/// Relies on `fake`'s `CompanyName` (en locale) via `Fake::fake_with_rng`:
/// fills a fixed template of names and a suffix, never empty.
#[verifier::external_body]
fn fake_company_name(rng: &mut rand_chacha::ChaCha8Rng) -> (r: String)
    ensures
        r@.len() > 0,
{
    fake::faker::company::en::CompanyName().fake_with_rng(rng)
}

/// Relies on `fake`'s `BuildingNumber` (en locale) via `Fake::fake_with_rng`:
/// renders a fixed all-digit format of three to five characters.
#[verifier::external_body]
fn fake_building_number(rng: &mut rand_chacha::ChaCha8Rng) -> (r: String)
    ensures
        r@.len() > 0,
{
    fake::faker::address::en::BuildingNumber().fake_with_rng(rng)
}

/// Relies on `fake`'s `StreetName` (en locale) via `Fake::fake_with_rng`:
/// fills the fixed template of a name and a street suffix, never empty.
#[verifier::external_body]
fn fake_street_name(rng: &mut rand_chacha::ChaCha8Rng) -> (r: String)
    ensures
        r@.len() > 0,
{
    fake::faker::address::en::StreetName().fake_with_rng(rng)
}

/// Relies on `fake`'s `SecondaryAddress` (en locale) via
/// `Fake::fake_with_rng`: fills the fixed unit-and-number template, never
/// empty.
#[verifier::external_body]
fn fake_secondary_address(rng: &mut rand_chacha::ChaCha8Rng) -> (r: String)
    ensures
        r@.len() > 0,
{
    fake::faker::address::en::SecondaryAddress().fake_with_rng(rng)
}

/// Relies on `uuid::Uuid::new_v4` and its `Display` rendering via
/// `to_string`: a fresh random identifier in the 36-character hyphenated
/// form.
#[verifier::external_body]
fn fresh_uuid_string() -> (r: String)
    ensures
        r@.len() == 36,
{
    uuid::Uuid::new_v4().to_string()
}

/// One uniform pick from a list of strings; `None` exactly when the list is
/// empty.
fn choose_string(rng: &mut rand_chacha::ChaCha8Rng, list: &Vec<String>) -> (r: Option<String>)
    ensures
        match r {
            Some(s) => contains_view(list@, s@),
            None => list@.len() == 0,
        },
{
    if list.len() == 0 {
        None
    } else {
        let idx = rng_below(rng, list.len() as u64) as usize;
        let s = list[idx].clone();
        assert(list@[idx as int]@ == s@);
        Some(s)
    }
}

/// The population generator: a seeded random source plus the vocabularies.
pub struct PopulationGenerator {
    rng: rand_chacha::ChaCha8Rng,
    vocab: Vocabularies,
}

impl PopulationGenerator {
    /// The vocabularies every draw samples from.
    pub closed spec fn vocab_spec(self) -> Vocabularies {
        self.vocab
    }

    /// The generator's vocabularies are usable.
    pub closed spec fn wf(self) -> bool {
        self.vocab.wf()
    }

    /// Builds a generator over the built-in default vocabularies, seeded when
    /// a seed is given and from the operating system otherwise.
    pub fn new(seed: Option<u64>) -> (g: Self)
        ensures
            g.wf(),
            is_default_vocab(g.vocab_spec()),
    {
        Self::with_vocabularies(seed, Vocabularies::default_set())
    }

    /// Builds a generator over the given vocabularies (already filtered by
    /// their constructor), seeded when a seed is given.
    pub fn with_vocabularies(seed: Option<u64>, vocab: Vocabularies) -> (g: Self)
        requires
            vocab.wf(),
        ensures
            g.wf(),
            g.vocab_spec() == vocab,
    {
        let rng = match seed {
            Some(s) => rng_from_seed(s),
            None => rng_from_entropy(),
        };
        PopulationGenerator { rng, vocab }
    }

    /// One fair coin flip from this generator's random source.
    pub fn coin_flip(&mut self) -> (b: bool)
        requires
            old(self).wf(),
        ensures
            final(self).wf(),
            final(self).vocab_spec() == old(self).vocab_spec(),
    {
        crate::rng::draw_coin(&mut self.rng)
    }

    /// Samples an address: a street line built from a building number and
    /// street name, a secondary line with probability `line2_ppm` parts per
    /// million, and a city/state/zip triple from the vocabulary (an `Anytown`
    /// fallback when the city table is empty).
    fn sample_address(&mut self, line2_ppm: u64) -> (a: Address)
        requires
            old(self).wf(),
        ensures
            final(self).wf(),
            final(self).vocab_spec() == old(self).vocab_spec(),
            address_generated_wf(a),
            old(self).vocab_spec().cities@.len() > 0 ==> exists|i: int|
                0 <= i < old(self).vocab_spec().cities@.len() && a.city@ == (
                #[trigger] old(self).vocab_spec().cities@[i]).city@ && a.state@
                    == old(self).vocab_spec().cities@[i].state@ && a.zip_code@
                    == old(self).vocab_spec().cities@[i].zip@,
    {
        let ghost cities0 = self.vocab.cities@;
        let (city, state, zip_code) = if self.vocab.cities.len() > 0 {
            let idx = rng_below(&mut self.rng, self.vocab.cities.len() as u64) as usize;
            let e = &self.vocab.cities[idx];
            let t = (e.city.clone(), e.state.clone(), e.zip.clone());
            assert(t.0@ == cities0[idx as int].city@ && t.1@ == cities0[idx as int].state@ && t.2@
                == cities0[idx as int].zip@);
            t
        } else {
            proof {
                reveal_strlit("Anytown");
                reveal_strlit("CA");
                reveal_strlit("12345");
            }
            (String::from_str("Anytown"), String::from_str("CA"), String::from_str("12345"))
        };
        let building = fake_building_number(&mut self.rng);
        let street = fake_street_name(&mut self.rng);
        let mut line1 = building;
        push_char(&mut line1, ' ');
        line1.append(street.as_str());
        let line2 = if draw_bernoulli_ppm(&mut self.rng, line2_ppm) {
            Some(fake_secondary_address(&mut self.rng))
        } else {
            None
        };
        Address { line1, line2, city, state, zip_code }
    }

    /// Draws a person whose date of birth lies `MIN_AGE_DAYS` to
    /// `MAX_AGE_DAYS` days before the day numbered `today`.
    pub fn generate_person_on(&mut self, today: u32) -> (p: Person)
        requires
            old(self).wf(),
            EPOCH_DAY_NUMBER <= today <= MAX_DAY_NUMBER,
        ensures
            final(self).wf(),
            final(self).vocab_spec() == old(self).vocab_spec(),
            p.id@.len() == 36,
            p.first_name@.len() > 0,
            p.last_name@.len() > 0,
            p.gender@ == seq!['M'] || p.gender@ == seq!['F'],
            exists|dob: int|
                today - MAX_AGE_DAYS <= dob <= today - MIN_AGE_DAYS && #[trigger] is_date_string_for(
                    p.date_of_birth@,
                    dob,
                ),
            address_generated_wf(p.address),
            old(self).vocab_spec().cities@.len() > 0 ==> exists|ci: int|
                0 <= ci < old(self).vocab_spec().cities@.len() && p.address.city@ == (
                #[trigger] old(self).vocab_spec().cities@[ci]).city@ && p.address.state@
                    == old(self).vocab_spec().cities@[ci].state@ && p.address.zip_code@
                    == old(self).vocab_spec().cities@[ci].zip@,
            p.gender@ == seq!['M'] && old(self).vocab_spec().first_names_m@.len() > 0
                ==> contains_view(old(self).vocab_spec().first_names_m@, p.first_name@),
            p.gender@ == seq!['F'] && old(self).vocab_spec().first_names_f@.len() > 0
                ==> contains_view(old(self).vocab_spec().first_names_f@, p.first_name@),
            old(self).vocab_spec().last_names@.len() > 0 ==> contains_view(
                old(self).vocab_spec().last_names@,
                p.last_name@,
            ),
    {
        proof {
            reveal_strlit("M");
            reveal_strlit("F");
        }
        let male = rng_below(&mut self.rng, 2) == 1;
        let gender = if male {
            String::from_str("M")
        } else {
            String::from_str("F")
        };
        proof {
            assert("M"@ =~= seq!['M']);
            assert("F"@ =~= seq!['F']);
            assert(gender@ == if male { seq!['M'] } else { seq!['F'] });
        }
        let first_name = if male {
            match choose_string(&mut self.rng, &self.vocab.first_names_m) {
                Some(s) => s,
                None => fake_first_name(&mut self.rng),
            }
        } else {
            match choose_string(&mut self.rng, &self.vocab.first_names_f) {
                Some(s) => s,
                None => fake_first_name(&mut self.rng),
            }
        };
        assert(male && self.vocab.first_names_m@.len() > 0 ==> contains_view(
            self.vocab.first_names_m@,
            first_name@,
        ));
        assert(!male && self.vocab.first_names_f@.len() > 0 ==> contains_view(
            self.vocab.first_names_f@,
            first_name@,
        ));
        let last_name = match choose_string(&mut self.rng, &self.vocab.last_names) {
            Some(s) => s,
            None => fake_last_name(&mut self.rng),
        };
        let age_days = draw_range(&mut self.rng, MIN_AGE_DAYS as u64, MAX_AGE_DAYS as u64) as u32;
        let dob_days = today - age_days;
        let date_of_birth = crate::calendar::date_string_of_days(dob_days);
        let address = self.sample_address(200000);
        let id = fresh_uuid_string();
        let p = Person { id, first_name, last_name, date_of_birth, gender, address };
        proof {
            assert("M"@ =~= seq!['M']);
            assert("F"@ =~= seq!['F']);
            assert(seq!['M'][0] == 'M' && seq!['F'][0] == 'F');
            assert(seq!['M'] != seq!['F']);
            assert(is_date_string_for(p.date_of_birth@, dob_days as int));
            assert(today - MAX_AGE_DAYS <= dob_days as int <= today - MIN_AGE_DAYS);
        }
        p
    }

    /// Draws a person, dating the birth from today's clock reading.
    pub fn generate_person(&mut self) -> (p: Person)
        requires
            old(self).wf(),
        ensures
            final(self).wf(),
            final(self).vocab_spec() == old(self).vocab_spec(),
            p.id@.len() == 36,
            p.first_name@.len() > 0,
            p.last_name@.len() > 0,
            p.gender@ == seq!['M'] || p.gender@ == seq!['F'],
            address_generated_wf(p.address),
            p.date_of_birth@.len() > 0,
            exists|td: int, dob: int|
                EPOCH_DAY_NUMBER <= td <= MAX_DAY_NUMBER && #[trigger] dob_in_window(
                    p.date_of_birth@,
                    td,
                    dob,
                ),
            old(self).vocab_spec().cities@.len() > 0 ==> exists|ci: int|
                0 <= ci < old(self).vocab_spec().cities@.len() && p.address.city@ == (
                #[trigger] old(self).vocab_spec().cities@[ci]).city@ && p.address.state@
                    == old(self).vocab_spec().cities@[ci].state@ && p.address.zip_code@
                    == old(self).vocab_spec().cities@[ci].zip@,
            p.gender@ == seq!['M'] && old(self).vocab_spec().first_names_m@.len() > 0
                ==> contains_view(old(self).vocab_spec().first_names_m@, p.first_name@),
            p.gender@ == seq!['F'] && old(self).vocab_spec().first_names_f@.len() > 0
                ==> contains_view(old(self).vocab_spec().first_names_f@, p.first_name@),
            old(self).vocab_spec().last_names@.len() > 0 ==> contains_view(
                old(self).vocab_spec().last_names@,
                p.last_name@,
            ),
    {
        let today = today_day_number();
        let p = self.generate_person_on(today);
        proof {
            let dob = choose|dob: int|
                today - MAX_AGE_DAYS <= dob <= today - MIN_AGE_DAYS
                    && #[trigger] is_date_string_for(p.date_of_birth@, dob);
            let (y, m, d) = choose|y: int, m: int, d: int|
                crate::calendar::valid_ymd(y, m, d) && crate::calendar::days_from_ce(y, m, d)
                    == dob && p.date_of_birth@ == crate::calendar::date_dashed_str(y, m, d);
            assert(p.date_of_birth@.len() > 0);
            assert(dob_in_window(p.date_of_birth@, today as int, dob));
        }
        p
    }

    /// Draws a provider with a fresh ten-digit NPI.
    pub fn generate_provider(&mut self) -> (p: Provider)
        requires
            old(self).wf(),
        ensures
            final(self).wf(),
            final(self).vocab_spec() == old(self).vocab_spec(),
            p.npi@.len() == 10,
            forall|i: int| 0 <= i < 10 ==> is_dec_digit(#[trigger] p.npi@[i]),
            exists|n: int|
                1000000000 <= n <= 9999999999 && p.npi@ == #[trigger] dec_digits(n as nat),
            p.provider_type@.len() > 0,
            p.name@.len() > 0,
            address_generated_wf(p.address),
            old(self).vocab_spec().cities@.len() > 0 ==> exists|ci: int|
                0 <= ci < old(self).vocab_spec().cities@.len() && p.address.city@ == (
                #[trigger] old(self).vocab_spec().cities@[ci]).city@ && p.address.state@
                    == old(self).vocab_spec().cities@[ci].state@ && p.address.zip_code@
                    == old(self).vocab_spec().cities@[ci].zip@,
            p.taxonomy_codes@.len() == 1,
            p.taxonomy_codes@[0]@.len() > 0,
            old(self).vocab_spec().provider_types@.len() > 0 ==> contains_view(
                old(self).vocab_spec().provider_types@,
                p.provider_type@,
            ),
            old(self).vocab_spec().taxonomy_codes@.len() > 0 ==> contains_view(
                old(self).vocab_spec().taxonomy_codes@,
                p.taxonomy_codes@[0]@,
            ),
    {
        let n = draw_range(&mut self.rng, 1000000000, 9999999999);
        let npi = u64_to_dec(n);
        proof {
            reveal_with_fuel(crate::strfmt::pow10, 11);
            assert(crate::strfmt::pow10(9) == 1000000000 && crate::strfmt::pow10(10)
                == 10000000000);
            lemma_dec_digits_len(n as nat, 10);
            lemma_dec_digits_are_digits(n as nat);
        }
        let provider_type = match choose_string(&mut self.rng, &self.vocab.provider_types) {
            Some(s) => s,
            None => {
                proof {
                    reveal_strlit("General Practice");
                }
                String::from_str("General Practice")
            },
        };
        let name = fake_company_name(&mut self.rng);
        let address = self.sample_address(300000);
        let taxonomy = match choose_string(&mut self.rng, &self.vocab.taxonomy_codes) {
            Some(s) => s,
            None => {
                proof {
                    reveal_strlit("207Q00000X");
                }
                String::from_str("207Q00000X")
            },
        };
        let mut taxonomy_codes: Vec<String> = Vec::new();
        taxonomy_codes.push(taxonomy);
        let p = Provider { npi, provider_type, name, address, taxonomy_codes };
        proof {
            let m: int = n as int;
            assert(1000000000 <= m <= 9999999999);
            assert(p.npi@ == dec_digits(m as nat));
        }
        p
    }
}

} // verus!
