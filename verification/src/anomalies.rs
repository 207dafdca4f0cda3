//! Anomaly injection: given a fully formed claim, stochastically corrupt it
//! to simulate real-world defects, recording each corruption as a structured
//! [`Anomaly`]. A base-rate gate is drawn first; when it passes, each of the
//! ten anomaly kinds is tested independently, in the fixed order of
//! [`types_order`] (the duplicate check runs first, against the claim id as
//! received). The injector tracks the claim ids it has seen across its
//! lifetime to support the duplicate rule.

use vstd::prelude::*;
use crate::claims::{Claim, ServiceLine};
use crate::population::{Person, Provider};
use crate::rng::{draw_bernoulli_ppm, rng_from_seed, rng_from_entropy, PPM_SCALE};

verus! {

/// The ten kinds of injected defect.
#[derive(Debug, Clone, Copy, PartialEq, Eq, Hash, Structural)]
pub enum AnomalyType {
    MissingField,
    InvalidValue,
    InvalidDateFormat,
    DuplicateClaim,
    InvalidProcedureCode,
    InvalidModifierCombination,
    AgeGenderMismatch,
    InvalidProvider,
    InvalidPatientInfo,
    MissingDocumentation,
}

/// Injector configuration: the base gate probability and the per-kind
/// probabilities, all in parts per million.
#[derive(Debug, Clone)]
pub struct AnomalyConfig {
    /// Probability that a claim is considered for injection at all.
    pub base_rate: u64,
    /// Per-kind probabilities; the first entry for a kind wins, a missing
    /// kind has probability zero.
    pub type_rates: Vec<(AnomalyType, u64)>,
    /// Whether callers should surface emitted anomalies on a diagnostic
    /// channel.
    pub log_anomalies: bool,
}

/// The probability for kind `t` among the entries from position `i` on: the
/// first matching entry, zero when none is present.
pub open spec fn rate_of_from(rates: Seq<(AnomalyType, u64)>, t: AnomalyType, i: int) -> int
    decreases rates.len() - i,
{
    if i < 0 || i >= rates.len() {
        0
    } else if rates[i].0 == t {
        rates[i].1 as int
    } else {
        rate_of_from(rates, t, i + 1)
    }
}

/// The probability configured for kind `t`: the first matching entry, zero
/// when none is present.
pub open spec fn rate_of(rates: Seq<(AnomalyType, u64)>, t: AnomalyType) -> int {
    rate_of_from(rates, t, 0)
}

/// Looks up the configured probability for kind `t`.
pub fn lookup_rate(rates: &Vec<(AnomalyType, u64)>, t: AnomalyType) -> (r: u64)
    ensures
        r == rate_of(rates@, t),
{
    let mut k: usize = 0;
    while k < rates.len()
        invariant
            k <= rates@.len(),
            rate_of(rates@, t) == rate_of_from(rates@, t, k as int),
        decreases rates@.len() - k,
    {
        let e = &rates[k];
        if e.0 == t {
            return e.1;
        }
        k = k + 1;
    }
    0
}

impl Default for AnomalyConfig {
    /// The default configuration: a one-percent base rate, the documented
    /// per-kind rates, and logging on.
    fn default() -> (c: Self)
        ensures
            c.base_rate == 10000,
            c.log_anomalies == true,
            rate_of(c.type_rates@, AnomalyType::MissingField) == 300000,
            rate_of(c.type_rates@, AnomalyType::InvalidValue) == 200000,
            rate_of(c.type_rates@, AnomalyType::InvalidDateFormat) == 100000,
            rate_of(c.type_rates@, AnomalyType::DuplicateClaim) == 50000,
            rate_of(c.type_rates@, AnomalyType::InvalidProcedureCode) == 150000,
            rate_of(c.type_rates@, AnomalyType::InvalidModifierCombination) == 100000,
            rate_of(c.type_rates@, AnomalyType::AgeGenderMismatch) == 50000,
            rate_of(c.type_rates@, AnomalyType::InvalidProvider) == 100000,
            rate_of(c.type_rates@, AnomalyType::InvalidPatientInfo) == 200000,
            rate_of(c.type_rates@, AnomalyType::MissingDocumentation) == 100000,
    {
        let mut type_rates: Vec<(AnomalyType, u64)> = Vec::new();
        type_rates.push((AnomalyType::MissingField, 300000));
        type_rates.push((AnomalyType::InvalidValue, 200000));
        type_rates.push((AnomalyType::InvalidDateFormat, 100000));
        type_rates.push((AnomalyType::DuplicateClaim, 50000));
        type_rates.push((AnomalyType::InvalidProcedureCode, 150000));
        type_rates.push((AnomalyType::InvalidModifierCombination, 100000));
        type_rates.push((AnomalyType::AgeGenderMismatch, 50000));
        type_rates.push((AnomalyType::InvalidProvider, 100000));
        type_rates.push((AnomalyType::InvalidPatientInfo, 200000));
        type_rates.push((AnomalyType::MissingDocumentation, 100000));
        proof {
            reveal_with_fuel(rate_of_from, 12);
        }
        AnomalyConfig { base_rate: 10000, type_rates, log_anomalies: true }
    }
}

/// One recorded corruption event.
#[derive(Debug, Clone)]
pub struct Anomaly {
    pub anomaly_type: AnomalyType,
    pub description: String,
    pub field: Option<String>,
    pub original_value: Option<String>,
    pub new_value: Option<String>,
}

/// A claim after injection, with the anomalies applied to it.
#[derive(Debug, Clone)]
pub struct AnomalyInjectionResult {
    pub claim: Claim,
    pub anomalies: Vec<Anomaly>,
}

/// The fixed order in which the kinds are tested on a claim.
pub open spec fn types_order() -> Seq<AnomalyType> {
    seq![
        AnomalyType::DuplicateClaim,
        AnomalyType::MissingField,
        AnomalyType::InvalidValue,
        AnomalyType::InvalidDateFormat,
        AnomalyType::InvalidProcedureCode,
        AnomalyType::InvalidModifierCombination,
        AnomalyType::AgeGenderMismatch,
        AnomalyType::InvalidProvider,
        AnomalyType::InvalidPatientInfo,
        AnomalyType::MissingDocumentation,
    ]
}

/// The two claims agree on every field except the claim id.
pub open spec fn same_but_claim_id(c0: Claim, c1: Claim) -> bool {
    &&& c1.patient == c0.patient
    &&& c1.billing_provider == c0.billing_provider
    &&& c1.rendering_provider == c0.rendering_provider
    &&& c1.service_lines == c0.service_lines
    &&& c1.total_charge == c0.total_charge
    &&& c1.total_payment == c0.total_payment
    &&& c1.total_adjustment == c0.total_adjustment
    &&& c1.patient_responsibility == c0.patient_responsibility
    &&& c1.status == c0.status
}

/// The two claims agree on every field except the payment total.
pub open spec fn same_but_total_payment(c0: Claim, c1: Claim) -> bool {
    &&& c1.claim_id == c0.claim_id
    &&& c1.patient == c0.patient
    &&& c1.billing_provider == c0.billing_provider
    &&& c1.rendering_provider == c0.rendering_provider
    &&& c1.service_lines == c0.service_lines
    &&& c1.total_charge == c0.total_charge
    &&& c1.total_adjustment == c0.total_adjustment
    &&& c1.patient_responsibility == c0.patient_responsibility
    &&& c1.status == c0.status
}

/// The two claims agree on every field except the service lines.
pub open spec fn same_but_lines(c0: Claim, c1: Claim) -> bool {
    &&& c1.claim_id == c0.claim_id
    &&& c1.patient == c0.patient
    &&& c1.billing_provider == c0.billing_provider
    &&& c1.rendering_provider == c0.rendering_provider
    &&& c1.total_charge == c0.total_charge
    &&& c1.total_payment == c0.total_payment
    &&& c1.total_adjustment == c0.total_adjustment
    &&& c1.patient_responsibility == c0.patient_responsibility
    &&& c1.status == c0.status
}

/// The two claims agree on every field except the patient.
pub open spec fn same_but_patient(c0: Claim, c1: Claim) -> bool {
    &&& c1.claim_id == c0.claim_id
    &&& c1.billing_provider == c0.billing_provider
    &&& c1.rendering_provider == c0.rendering_provider
    &&& c1.service_lines == c0.service_lines
    &&& c1.total_charge == c0.total_charge
    &&& c1.total_payment == c0.total_payment
    &&& c1.total_adjustment == c0.total_adjustment
    &&& c1.patient_responsibility == c0.patient_responsibility
    &&& c1.status == c0.status
}

/// The two claims agree on every field except the billing provider.
pub open spec fn same_but_billing_provider(c0: Claim, c1: Claim) -> bool {
    &&& c1.claim_id == c0.claim_id
    &&& c1.patient == c0.patient
    &&& c1.rendering_provider == c0.rendering_provider
    &&& c1.service_lines == c0.service_lines
    &&& c1.total_charge == c0.total_charge
    &&& c1.total_payment == c0.total_payment
    &&& c1.total_adjustment == c0.total_adjustment
    &&& c1.patient_responsibility == c0.patient_responsibility
    &&& c1.status == c0.status
}

/// The two persons agree on every field except the gender code.
pub open spec fn person_same_but_gender(p0: Person, p1: Person) -> bool {
    &&& p1.id == p0.id
    &&& p1.first_name == p0.first_name
    &&& p1.last_name == p0.last_name
    &&& p1.date_of_birth == p0.date_of_birth
    &&& p1.address == p0.address
}

/// The two persons agree on every field except the date of birth.
pub open spec fn person_same_but_dob(p0: Person, p1: Person) -> bool {
    &&& p1.id == p0.id
    &&& p1.first_name == p0.first_name
    &&& p1.last_name == p0.last_name
    &&& p1.gender == p0.gender
    &&& p1.address == p0.address
}

/// The two providers agree on every field except the NPI.
pub open spec fn provider_same_but_npi(p0: Provider, p1: Provider) -> bool {
    &&& p1.provider_type == p0.provider_type
    &&& p1.name == p0.name
    &&& p1.address == p0.address
    &&& p1.taxonomy_codes == p0.taxonomy_codes
}

/// The two lines agree on every field except the service date.
pub open spec fn line_same_but_date(l0: ServiceLine, l1: ServiceLine) -> bool {
    &&& l1.line_number == l0.line_number
    &&& l1.procedure_code == l0.procedure_code
    &&& l1.procedure_description == l0.procedure_description
    &&& l1.charge_amount == l0.charge_amount
    &&& l1.payment_amount == l0.payment_amount
    &&& l1.paid_amount == l0.paid_amount
    &&& l1.adjustment_amount == l0.adjustment_amount
    &&& l1.units == l0.units
    &&& l1.place_of_service == l0.place_of_service
    &&& l1.revenue_code == l0.revenue_code
    &&& l1.modifiers == l0.modifiers
}

/// The two lines agree on every field except the procedure code.
pub open spec fn line_same_but_code(l0: ServiceLine, l1: ServiceLine) -> bool {
    &&& l1.line_number == l0.line_number
    &&& l1.procedure_description == l0.procedure_description
    &&& l1.service_date == l0.service_date
    &&& l1.charge_amount == l0.charge_amount
    &&& l1.payment_amount == l0.payment_amount
    &&& l1.paid_amount == l0.paid_amount
    &&& l1.adjustment_amount == l0.adjustment_amount
    &&& l1.units == l0.units
    &&& l1.place_of_service == l0.place_of_service
    &&& l1.revenue_code == l0.revenue_code
    &&& l1.modifiers == l0.modifiers
}

/// The two lines agree on every field except the modifier list.
pub open spec fn line_same_but_modifiers(l0: ServiceLine, l1: ServiceLine) -> bool {
    &&& l1.line_number == l0.line_number
    &&& l1.procedure_code == l0.procedure_code
    &&& l1.procedure_description == l0.procedure_description
    &&& l1.service_date == l0.service_date
    &&& l1.charge_amount == l0.charge_amount
    &&& l1.payment_amount == l0.payment_amount
    &&& l1.paid_amount == l0.paid_amount
    &&& l1.adjustment_amount == l0.adjustment_amount
    &&& l1.units == l0.units
    &&& l1.place_of_service == l0.place_of_service
    &&& l1.revenue_code == l0.revenue_code
}

/// The lines agree except that line 0 satisfies `head_rel`.
pub open spec fn lines_updated_head(
    s0: Seq<ServiceLine>,
    s1: Seq<ServiceLine>,
    head_rel: spec_fn(ServiceLine, ServiceLine) -> bool,
) -> bool {
    &&& s1.len() == s0.len()
    &&& s0.len() > 0
    &&& head_rel(s0[0], s1[0])
    &&& forall|j: int| 1 <= j < s0.len() ==> s1[j] == s0[j]
}

/// What the missing-field rule does: clears the claim id.
pub open spec fn missing_field_rel(c0: Claim, c1: Claim, a: Anomaly) -> bool {
    &&& same_but_claim_id(c0, c1)
    &&& c1.claim_id@ =~= Seq::<char>::empty()
    &&& a.anomaly_type == AnomalyType::MissingField
    &&& a.description@ == "Missing required claim_id"@
    &&& (match a.field {
        Some(f) => f@ == "claim_id"@,
        None => false,
    })
    &&& (match a.original_value {
        Some(v) => v@ == c0.claim_id@,
        None => false,
    })
    &&& (match a.new_value {
        Some(v) => v@ =~= Seq::<char>::empty(),
        None => false,
    })
}

/// What the invalid-value rule does: sets the payment total above the charge
/// total (saturating at the integer limit).
pub open spec fn invalid_value_rel(c0: Claim, c1: Claim, a: Anomaly) -> bool {
    &&& same_but_total_payment(c0, c1)
    &&& c1.total_payment == if c0.total_charge + 1000 <= u64::MAX {
        c0.total_charge + 1000
    } else {
        u64::MAX as int
    }
    &&& a.anomaly_type == AnomalyType::InvalidValue
    &&& a.description@ == "Payment exceeds charge"@
    &&& (match a.field {
        Some(f) => f@ == "total_payment"@,
        None => false,
    })
    &&& (match a.original_value {
        Some(v) => v@ == crate::strfmt::dec_digits(c0.total_payment as nat),
        None => false,
    })
    &&& (match a.new_value {
        Some(v) => v@ == crate::strfmt::dec_digits(c1.total_payment as nat),
        None => false,
    })
}

/// What the invalid-date rule does: rewrites the first line's date to a fixed
/// non-ISO string.
pub open spec fn invalid_date_rel(c0: Claim, c1: Claim, a: Anomaly) -> bool {
    &&& same_but_lines(c0, c1)
    &&& lines_updated_head(
        c0.service_lines@,
        c1.service_lines@,
        |l0: ServiceLine, l1: ServiceLine|
            line_same_but_date(l0, l1) && l1.service_date@ == "01/01/1970"@,
    )
    &&& a.anomaly_type == AnomalyType::InvalidDateFormat
    &&& a.description@ == "Invalid service date format"@
    &&& (match a.field {
        Some(f) => f@ == "service_date"@,
        None => false,
    })
    &&& (match a.original_value {
        Some(v) => v@ == c0.service_lines@[0].service_date@,
        None => false,
    })
    &&& (match a.new_value {
        Some(v) => v@ == "01/01/1970"@,
        None => false,
    })
}

/// What the duplicate rule emits when the id was not yet seen.
pub open spec fn duplicate_anomaly_rel(c0: Claim, a: Anomaly) -> bool {
    &&& a.anomaly_type == AnomalyType::DuplicateClaim
    &&& a.description@ == "Duplicate claim ID"@
    &&& (match a.field {
        Some(f) => f@ == "claim_id"@,
        None => false,
    })
    &&& (match a.original_value {
        Some(v) => v@ == c0.claim_id@,
        None => false,
    })
    &&& a.new_value is None
}

/// What the invalid-procedure rule does: overwrites the first line's
/// procedure code with a sentinel.
pub open spec fn invalid_procedure_rel(c0: Claim, c1: Claim, a: Anomaly) -> bool {
    &&& same_but_lines(c0, c1)
    &&& lines_updated_head(
        c0.service_lines@,
        c1.service_lines@,
        |l0: ServiceLine, l1: ServiceLine|
            line_same_but_code(l0, l1) && l1.procedure_code@ == "INVALID_CODE"@,
    )
    &&& a.anomaly_type == AnomalyType::InvalidProcedureCode
    &&& a.description@ == "Invalid procedure code"@
    &&& (match a.field {
        Some(f) => f@ == "procedure_code"@,
        None => false,
    })
    &&& (match a.original_value {
        Some(v) => v@ == c0.service_lines@[0].procedure_code@,
        None => false,
    })
    &&& (match a.new_value {
        Some(v) => v@ == "INVALID_CODE"@,
        None => false,
    })
}

/// The debug-style rendering of a modifier list: the entries quoted, comma
/// separated, in brackets.
pub open spec fn modifier_list_str(mods: Seq<String>) -> Seq<char>
    decreases mods.len(),
{
    if mods.len() == 0 {
        "[]"@
    } else if mods.len() == 1 {
        seq!['[', '"'] + mods[0]@ + seq!['"', ']']
    } else {
        modifier_list_str(mods.drop_last()).drop_last() + seq![',', ' ', '"']
            + mods.last()@ + seq!['"', ']']
    }
}

/// What the invalid-modifier rule does: overwrites the first line's
/// modifiers with a pair of identical placeholder codes.
pub open spec fn invalid_modifiers_rel(c0: Claim, c1: Claim, a: Anomaly) -> bool {
    &&& same_but_lines(c0, c1)
    &&& lines_updated_head(
        c0.service_lines@,
        c1.service_lines@,
        |l0: ServiceLine, l1: ServiceLine|
            line_same_but_modifiers(l0, l1) && l1.modifiers@.len() == 2 && l1.modifiers@[0]@
                == "AAA"@ && l1.modifiers@[1]@ == "AAA"@,
    )
    &&& a.anomaly_type == AnomalyType::InvalidModifierCombination
    &&& a.description@ == "Invalid modifier combination"@
    &&& (match a.field {
        Some(f) => f@ == "modifiers"@,
        None => false,
    })
    &&& (match a.original_value {
        Some(v) => v@ == modifier_list_str(c0.service_lines@[0].modifiers@),
        None => false,
    })
    &&& (match a.new_value {
        Some(v) => v@ == modifier_list_str(c1.service_lines@[0].modifiers@),
        None => false,
    })
}

/// What the age/gender rule does: flips `M` to `F` and anything else to `M`.
pub open spec fn gender_mismatch_rel(c0: Claim, c1: Claim, a: Anomaly) -> bool {
    &&& same_but_patient(c0, c1)
    &&& person_same_but_gender(c0.patient, c1.patient)
    &&& c1.patient.gender@ == if c0.patient.gender@ == seq!['M'] || c0.patient.gender@
        == seq!['m'] {
        seq!['F']
    } else {
        seq!['M']
    }
    &&& a.anomaly_type == AnomalyType::AgeGenderMismatch
    &&& a.description@ == "Age/gender mismatch for procedure"@
    &&& (match a.field {
        Some(f) => f@ == "patient.gender"@,
        None => false,
    })
    &&& (match a.original_value {
        Some(v) => v@ == c0.patient.gender@,
        None => false,
    })
    &&& (match a.new_value {
        Some(v) => v@ == c1.patient.gender@,
        None => false,
    })
}

/// What the invalid-provider rule does: overwrites the billing provider's
/// NPI with a short placeholder.
pub open spec fn invalid_provider_rel(c0: Claim, c1: Claim, a: Anomaly) -> bool {
    &&& same_but_billing_provider(c0, c1)
    &&& provider_same_but_npi(c0.billing_provider, c1.billing_provider)
    &&& c1.billing_provider.npi@ == "000"@
    &&& a.anomaly_type == AnomalyType::InvalidProvider
    &&& a.description@ == "Invalid provider NPI"@
    &&& (match a.field {
        Some(f) => f@ == "billing_provider.npi"@,
        None => false,
    })
    &&& (match a.original_value {
        Some(v) => v@ == c0.billing_provider.npi@,
        None => false,
    })
    &&& (match a.new_value {
        Some(v) => v@ == "000"@,
        None => false,
    })
}

/// What the invalid-patient rule does: overwrites the date of birth with a
/// syntactically invalid date.
pub open spec fn invalid_patient_rel(c0: Claim, c1: Claim, a: Anomaly) -> bool {
    &&& same_but_patient(c0, c1)
    &&& person_same_but_dob(c0.patient, c1.patient)
    &&& c1.patient.date_of_birth@ == "2010-13-40"@
    &&& a.anomaly_type == AnomalyType::InvalidPatientInfo
    &&& a.description@ == "Invalid patient date of birth"@
    &&& (match a.field {
        Some(f) => f@ == "patient.date_of_birth"@,
        None => false,
    })
    &&& (match a.original_value {
        Some(v) => v@ == c0.patient.date_of_birth@,
        None => false,
    })
    &&& (match a.new_value {
        Some(v) => v@ == "2010-13-40"@,
        None => false,
    })
}

/// What the missing-documentation rule does: records an anomaly with no
/// field detail and leaves the claim untouched.
pub open spec fn missing_documentation_rel(a: Anomaly) -> bool {
    &&& a.anomaly_type == AnomalyType::MissingDocumentation
    &&& a.description@ == "Missing documentation for claim"@
    &&& a.field is None
    &&& a.original_value is None
    &&& a.new_value is None
}

/// What one fired test of kind `t` does to the claim, the seen set, and the
/// emitted record list (empty or a single record).
#[verifier::opaque]
pub open spec fn step_rel(
    t: AnomalyType,
    c0: Claim,
    s0: Set<Seq<char>>,
    c1: Claim,
    s1: Set<Seq<char>>,
    out: Seq<Anomaly>,
) -> bool {
    match t {
        AnomalyType::DuplicateClaim => {
            &&& c1 == c0
            &&& if s0.contains(c0.claim_id@) {
                s1 == s0 && out =~= Seq::<Anomaly>::empty()
            } else {
                s1 == s0.insert(c0.claim_id@) && out.len() == 1 && duplicate_anomaly_rel(
                    c0,
                    out[0],
                )
            }
        },
        AnomalyType::MissingField => {
            &&& s1 == s0
            &&& out.len() == 1
            &&& missing_field_rel(c0, c1, out[0])
        },
        AnomalyType::InvalidValue => {
            &&& s1 == s0
            &&& out.len() == 1
            &&& invalid_value_rel(c0, c1, out[0])
        },
        AnomalyType::InvalidDateFormat => {
            &&& s1 == s0
            &&& if c0.service_lines@.len() == 0 {
                c1 == c0 && out =~= Seq::<Anomaly>::empty()
            } else {
                out.len() == 1 && invalid_date_rel(c0, c1, out[0])
            }
        },
        AnomalyType::InvalidProcedureCode => {
            &&& s1 == s0
            &&& if c0.service_lines@.len() == 0 {
                c1 == c0 && out =~= Seq::<Anomaly>::empty()
            } else {
                out.len() == 1 && invalid_procedure_rel(c0, c1, out[0])
            }
        },
        AnomalyType::InvalidModifierCombination => {
            &&& s1 == s0
            &&& if c0.service_lines@.len() == 0 {
                c1 == c0 && out =~= Seq::<Anomaly>::empty()
            } else {
                out.len() == 1 && invalid_modifiers_rel(c0, c1, out[0])
            }
        },
        AnomalyType::AgeGenderMismatch => {
            &&& s1 == s0
            &&& out.len() == 1
            &&& gender_mismatch_rel(c0, c1, out[0])
        },
        AnomalyType::InvalidProvider => {
            &&& s1 == s0
            &&& out.len() == 1
            &&& invalid_provider_rel(c0, c1, out[0])
        },
        AnomalyType::InvalidPatientInfo => {
            &&& s1 == s0
            &&& out.len() == 1
            &&& invalid_patient_rel(c0, c1, out[0])
        },
        AnomalyType::MissingDocumentation => {
            &&& s1 == s0
            &&& c1 == c0
            &&& out.len() == 1
            &&& missing_documentation_rel(out[0])
        },
    }
}

/// What one test of kind `t` does when its Bernoulli trial came out `fire`.
pub open spec fn one_step(
    t: AnomalyType,
    fire: bool,
    c0: Claim,
    s0: Set<Seq<char>>,
    c1: Claim,
    s1: Set<Seq<char>>,
    out: Seq<Anomaly>,
) -> bool {
    if fire {
        step_rel(t, c0, s0, c1, s1, out)
    } else {
        c1 == c0 && s1 == s0 && out =~= Seq::<Anomaly>::empty()
    }
}

/// Concatenation of the first `k` emitted record lists.
pub open spec fn concat_upto(outs: Seq<Seq<Anomaly>>, k: int) -> Seq<Anomaly>
    decreases k,
{
    if k <= 0 {
        Seq::<Anomaly>::empty()
    } else {
        concat_upto(outs, k - 1) + outs[k - 1]
    }
}

/// A complete injection trace: starting from `(c0, s0)`, the ten kinds were
/// tested in [`types_order`] order with trial outcomes `fires`; `claims` and
/// `seens` are the claim and seen-set after each test (index 0 holds the
/// start), `outs` the records each test emitted, and `out_all` all records
/// in test order.
pub open spec fn trace_ok(
    c0: Claim,
    s0: Set<Seq<char>>,
    fires: Seq<bool>,
    claims: Seq<Claim>,
    seens: Seq<Set<Seq<char>>>,
    outs: Seq<Seq<Anomaly>>,
    c_end: Claim,
    s_end: Set<Seq<char>>,
    out_all: Seq<Anomaly>,
) -> bool {
    &&& fires.len() == 10
    &&& claims.len() == 11
    &&& seens.len() == 11
    &&& outs.len() == 10
    &&& claims[0] == c0
    &&& seens[0] == s0
    &&& claims[10] == c_end
    &&& seens[10] == s_end
    &&& forall|k: int|
        0 <= k < 10 ==> one_step(
            types_order()[k],
            fires[k],
            #[trigger] claims[k],
            seens[k],
            claims[k + 1],
            seens[k + 1],
            outs[k],
        )
    &&& out_all == concat_upto(outs, 10)
}

/// Records emitted by the tests after the duplicate check never carry the
/// duplicate kind, so a duplicate record can only stand at the head of the
/// concatenation.
proof fn lemma_concat_dup_head(outs: Seq<Seq<Anomaly>>, n: int)
    requires
        outs.len() == 10,
        1 <= n <= 10,
        forall|k: int, j: int|
            #![trigger outs[k][j]]
            1 <= k < 10 && 0 <= j < outs[k].len() ==> outs[k][j].anomaly_type
                != AnomalyType::DuplicateClaim,
    ensures
        concat_upto(outs, n).len() >= outs[0].len(),
        forall|j: int|
            0 <= j < outs[0].len() ==> #[trigger] concat_upto(outs, n)[j] == outs[0][j],
        forall|j: int|
            outs[0].len() <= j < concat_upto(outs, n).len() ==> (#[trigger] concat_upto(
                outs,
                n,
            )[j]).anomaly_type != AnomalyType::DuplicateClaim,
    decreases n,
{
    if n == 1 {
        assert(concat_upto(outs, 0) =~= Seq::<Anomaly>::empty());
        assert(concat_upto(outs, 1) =~= outs[0]);
    } else {
        lemma_concat_dup_head(outs, n - 1);
        let prev = concat_upto(outs, n - 1);
        let cur = concat_upto(outs, n);
        assert(cur == prev + outs[n - 1]);
        assert(forall|j: int| 0 <= j < prev.len() ==> #[trigger] cur[j] == prev[j]);
        assert forall|j: int|
            prev.len() <= j < cur.len() implies (#[trigger] cur[j]).anomaly_type
            != AnomalyType::DuplicateClaim by {
            assert(cur[j] == outs[n - 1][j - prev.len()]);
        }
    }
}

/// What a full trace does to the seen set, and how often it can flag a
/// duplicate: the seen set at most gains the incoming claim id; an id
/// already seen is never flagged, and a flagged id was new and is in the
/// seen set afterwards; no trace flags a duplicate twice.
pub proof fn lemma_trace_duplicate_props(
    c0: Claim,
    s0: Set<Seq<char>>,
    fires: Seq<bool>,
    claims: Seq<Claim>,
    seens: Seq<Set<Seq<char>>>,
    outs: Seq<Seq<Anomaly>>,
    c_end: Claim,
    s_end: Set<Seq<char>>,
    out_all: Seq<Anomaly>,
)
    requires
        trace_ok(c0, s0, fires, claims, seens, outs, c_end, s_end, out_all),
    ensures
        s_end == s0 || s_end == s0.insert(c0.claim_id@),
        s0.contains(c0.claim_id@) ==> s_end == s0 && forall|j: int|
            0 <= j < out_all.len() ==> (#[trigger] out_all[j]).anomaly_type
                != AnomalyType::DuplicateClaim,
        forall|j: int, l: int|
            0 <= j < out_all.len() && 0 <= l < out_all.len() && (
            #[trigger] out_all[j]).anomaly_type == AnomalyType::DuplicateClaim && (
            #[trigger] out_all[l]).anomaly_type == AnomalyType::DuplicateClaim ==> j == l,
        (exists|j: int|
            0 <= j < out_all.len() && (#[trigger] out_all[j]).anomaly_type
                == AnomalyType::DuplicateClaim) ==> !s0.contains(c0.claim_id@) && s_end
            == s0.insert(c0.claim_id@) && s_end.contains(c0.claim_id@),
        forall|j: int|
            0 <= j < out_all.len() && (#[trigger] out_all[j]).anomaly_type
                == AnomalyType::DuplicateClaim ==> (match out_all[j].original_value {
                Some(v) => v@ == c0.claim_id@,
                None => false,
            }),
{
    reveal(step_rel);
    assert(one_step(
        types_order()[0],
        fires[0],
        claims[0],
        seens[0],
        claims[1],
        seens[1],
        outs[0],
    ));
    assert(types_order()[0] == AnomalyType::DuplicateClaim);
    assert forall|k: int| 1 <= k < 10 implies #[trigger] seens[k + 1] == seens[k] && (forall|
        j: int,
    |
        0 <= j < outs[k].len() ==> (#[trigger] outs[k][j]).anomaly_type
            != AnomalyType::DuplicateClaim) by {
        assert(one_step(
            types_order()[k],
            fires[k],
            claims[k],
            seens[k],
            claims[k + 1],
            seens[k + 1],
            outs[k],
        ));
        assert(types_order()[k] != AnomalyType::DuplicateClaim);
        if fires[k] {
            assert(step_rel(
                types_order()[k],
                claims[k],
                seens[k],
                claims[k + 1],
                seens[k + 1],
                outs[k],
            ));
        }
    }
    assert forall|k: int| 1 <= k <= 10 implies #[trigger] seens[k] == seens[1] by {
        lemma_seen_stable(seens, k);
    }
    assert(s_end == seens[1]);
    assert(outs[0].len() <= 1);
    assert forall|k: int, j: int|
        #![trigger outs[k][j]]
        1 <= k < 10 && 0 <= j < outs[k].len() implies outs[k][j].anomaly_type
        != AnomalyType::DuplicateClaim by {
        assert(seens[k + 1] == seens[k]);
    }
    lemma_concat_dup_head(outs, 10);
    if s0.contains(c0.claim_id@) {
        assert(seens[1] == s0);
        assert(outs[0] =~= Seq::<Anomaly>::empty());
    }
    if exists|j: int|
        0 <= j < out_all.len() && (#[trigger] out_all[j]).anomaly_type
            == AnomalyType::DuplicateClaim {
        let j = choose|j: int|
            0 <= j < out_all.len() && (#[trigger] out_all[j]).anomaly_type
                == AnomalyType::DuplicateClaim;
        assert(j < outs[0].len());
        assert(outs[0].len() == 1);
        assert(!s0.contains(c0.claim_id@));
    }
    assert forall|j: int|
        0 <= j < out_all.len() && (#[trigger] out_all[j]).anomaly_type
            == AnomalyType::DuplicateClaim implies (match out_all[j].original_value {
        Some(v) => v@ == c0.claim_id@,
        None => false,
    }) by {
        assert(j < outs[0].len());
        assert(out_all[j] == outs[0][j]);
        assert(outs[0].len() == 1 && j == 0);
        assert(duplicate_anomaly_rel(c0, outs[0][0]));
    }
}

/// Helper: the seen set is constant from index 1 on.
proof fn lemma_seen_stable(seens: Seq<Set<Seq<char>>>, k: int)
    requires
        seens.len() == 11,
        1 <= k <= 10,
        forall|l: int| 1 <= l < 10 ==> #[trigger] seens[l + 1] == seens[l],
    ensures
        seens[k] == seens[1],
    decreases k,
{
    if k > 1 {
        assert(seens[(k - 1) + 1] == seens[k - 1]);
        lemma_seen_stable(seens, k - 1);
    }
}


/// The record list one test emits: nothing, or a single record.
pub open spec fn opt_seq(a: Option<Anomaly>) -> Seq<Anomaly> {
    match a {
        None => Seq::<Anomaly>::empty(),
        Some(x) => seq![x],
    }
}

/// The base-rate trial succeeded and the ten tests ran: some trace with outcomes obeying
/// the configured rates (an impossible kind never fires, a certain kind
/// always does) turned the incoming claim and seen set into the result.
pub open spec fn injected_outcome(
    cfg: AnomalyConfig,
    c0: Claim,
    s0: Set<Seq<char>>,
    c1: Claim,
    s1: Set<Seq<char>>,
    out: Seq<Anomaly>,
) -> bool {
    exists|fires: Seq<bool>, claims: Seq<Claim>, seens: Seq<Set<Seq<char>>>, outs: Seq<
        Seq<Anomaly>,
    >|
        {
            &&& #[trigger] trace_ok(c0, s0, fires, claims, seens, outs, c1, s1, out)
            &&& forall|k: int|
                0 <= k < 10 ==> ((rate_of(cfg.type_rates@, types_order()[k]) == 0 ==> !(
                #[trigger] fires[k])) && (rate_of(cfg.type_rates@, types_order()[k])
                    >= PPM_SCALE ==> fires[k]))
        }
}


/// Assembles the per-test facts of one injection pass into a full trace and
/// the rate constraints on its outcomes.
#[verifier::rlimit(60)]
proof fn lemma_assemble_trace(
    cfg: AnomalyConfig,
    c0: Claim, c1: Claim, c2: Claim, c3: Claim, c4: Claim, c5: Claim, c6: Claim, c7: Claim, c8: Claim, c9: Claim, c10: Claim,
    s0: Set<Seq<char>>, s1: Set<Seq<char>>, s2: Set<Seq<char>>, s3: Set<Seq<char>>, s4: Set<Seq<char>>, s5: Set<Seq<char>>, s6: Set<Seq<char>>, s7: Set<Seq<char>>, s8: Set<Seq<char>>, s9: Set<Seq<char>>, s10: Set<Seq<char>>,
    f1: bool, f2: bool, f3: bool, f4: bool, f5: bool, f6: bool, f7: bool, f8: bool, f9: bool, f10: bool,
    o1: Seq<Anomaly>, o2: Seq<Anomaly>, o3: Seq<Anomaly>, o4: Seq<Anomaly>, o5: Seq<Anomaly>, o6: Seq<Anomaly>, o7: Seq<Anomaly>, o8: Seq<Anomaly>, o9: Seq<Anomaly>, o10: Seq<Anomaly>,
    a1: Seq<Anomaly>, a2: Seq<Anomaly>, a3: Seq<Anomaly>, a4: Seq<Anomaly>, a5: Seq<Anomaly>, a6: Seq<Anomaly>, a7: Seq<Anomaly>, a8: Seq<Anomaly>, a9: Seq<Anomaly>, a10: Seq<Anomaly>,
)
    requires
        one_step(AnomalyType::DuplicateClaim, f1, c0, s0, c1, s1, o1),
        one_step(AnomalyType::MissingField, f2, c1, s1, c2, s2, o2),
        one_step(AnomalyType::InvalidValue, f3, c2, s2, c3, s3, o3),
        one_step(AnomalyType::InvalidDateFormat, f4, c3, s3, c4, s4, o4),
        one_step(AnomalyType::InvalidProcedureCode, f5, c4, s4, c5, s5, o5),
        one_step(AnomalyType::InvalidModifierCombination, f6, c5, s5, c6, s6, o6),
        one_step(AnomalyType::AgeGenderMismatch, f7, c6, s6, c7, s7, o7),
        one_step(AnomalyType::InvalidProvider, f8, c7, s7, c8, s8, o8),
        one_step(AnomalyType::InvalidPatientInfo, f9, c8, s8, c9, s9, o9),
        one_step(AnomalyType::MissingDocumentation, f10, c9, s9, c10, s10, o10),
        rate_of(cfg.type_rates@, AnomalyType::DuplicateClaim) == 0 ==> !f1,
        rate_of(cfg.type_rates@, AnomalyType::DuplicateClaim) >= PPM_SCALE ==> f1,
        rate_of(cfg.type_rates@, AnomalyType::MissingField) == 0 ==> !f2,
        rate_of(cfg.type_rates@, AnomalyType::MissingField) >= PPM_SCALE ==> f2,
        rate_of(cfg.type_rates@, AnomalyType::InvalidValue) == 0 ==> !f3,
        rate_of(cfg.type_rates@, AnomalyType::InvalidValue) >= PPM_SCALE ==> f3,
        rate_of(cfg.type_rates@, AnomalyType::InvalidDateFormat) == 0 ==> !f4,
        rate_of(cfg.type_rates@, AnomalyType::InvalidDateFormat) >= PPM_SCALE ==> f4,
        rate_of(cfg.type_rates@, AnomalyType::InvalidProcedureCode) == 0 ==> !f5,
        rate_of(cfg.type_rates@, AnomalyType::InvalidProcedureCode) >= PPM_SCALE ==> f5,
        rate_of(cfg.type_rates@, AnomalyType::InvalidModifierCombination) == 0 ==> !f6,
        rate_of(cfg.type_rates@, AnomalyType::InvalidModifierCombination) >= PPM_SCALE ==> f6,
        rate_of(cfg.type_rates@, AnomalyType::AgeGenderMismatch) == 0 ==> !f7,
        rate_of(cfg.type_rates@, AnomalyType::AgeGenderMismatch) >= PPM_SCALE ==> f7,
        rate_of(cfg.type_rates@, AnomalyType::InvalidProvider) == 0 ==> !f8,
        rate_of(cfg.type_rates@, AnomalyType::InvalidProvider) >= PPM_SCALE ==> f8,
        rate_of(cfg.type_rates@, AnomalyType::InvalidPatientInfo) == 0 ==> !f9,
        rate_of(cfg.type_rates@, AnomalyType::InvalidPatientInfo) >= PPM_SCALE ==> f9,
        rate_of(cfg.type_rates@, AnomalyType::MissingDocumentation) == 0 ==> !f10,
        rate_of(cfg.type_rates@, AnomalyType::MissingDocumentation) >= PPM_SCALE ==> f10,
        a1 =~= o1,
        a2 =~= a1 + o2,
        a3 =~= a2 + o3,
        a4 =~= a3 + o4,
        a5 =~= a4 + o5,
        a6 =~= a5 + o6,
        a7 =~= a6 + o7,
        a8 =~= a7 + o8,
        a9 =~= a8 + o9,
        a10 =~= a9 + o10,
    ensures
        injected_outcome(cfg, c0, s0, c10, s10, a10),
{
    let fires = seq![f1, f2, f3, f4, f5, f6, f7, f8, f9, f10];
    let gclaims = seq![c0, c1, c2, c3, c4, c5, c6, c7, c8, c9, c10];
    let gseens = seq![s0, s1, s2, s3, s4, s5, s6, s7, s8, s9, s10];
    let gouts = seq![o1, o2, o3, o4, o5, o6, o7, o8, o9, o10];
    assert(types_order()[0] == AnomalyType::DuplicateClaim);
    assert(types_order()[1] == AnomalyType::MissingField);
    assert(types_order()[2] == AnomalyType::InvalidValue);
    assert(types_order()[3] == AnomalyType::InvalidDateFormat);
    assert(types_order()[4] == AnomalyType::InvalidProcedureCode);
    assert(types_order()[5] == AnomalyType::InvalidModifierCombination);
    assert(types_order()[6] == AnomalyType::AgeGenderMismatch);
    assert(types_order()[7] == AnomalyType::InvalidProvider);
    assert(types_order()[8] == AnomalyType::InvalidPatientInfo);
    assert(types_order()[9] == AnomalyType::MissingDocumentation);
    assert forall|k: int|
        0 <= k < 10 implies one_step(
        types_order()[k],
        fires[k],
        #[trigger] gclaims[k],
        gseens[k],
        gclaims[k + 1],
        gseens[k + 1],
        gouts[k],
    ) by {
        if k == 0 {
        } else if k == 1 {
        } else if k == 2 {
        } else if k == 3 {
        } else if k == 4 {
        } else if k == 5 {
        } else if k == 6 {
        } else if k == 7 {
        } else if k == 8 {
        } else {
        }
    }
    reveal_with_fuel(concat_upto, 12);
    assert(concat_upto(gouts, 0) =~= Seq::<Anomaly>::empty());
    assert(concat_upto(gouts, 1) =~= a1);
    assert(concat_upto(gouts, 2) =~= a2);
    assert(concat_upto(gouts, 3) =~= a3);
    assert(concat_upto(gouts, 4) =~= a4);
    assert(concat_upto(gouts, 5) =~= a5);
    assert(concat_upto(gouts, 6) =~= a6);
    assert(concat_upto(gouts, 7) =~= a7);
    assert(concat_upto(gouts, 8) =~= a8);
    assert(concat_upto(gouts, 9) =~= a9);
    assert(concat_upto(gouts, 10) =~= a10);
    assert(trace_ok(c0, s0, fires, gclaims, gseens, gouts, c10, s10, a10));
    assert forall|k: int|
        0 <= k < 10 implies ((rate_of(cfg.type_rates@, types_order()[k]) == 0 ==> !(
    #[trigger] fires[k])) && (rate_of(cfg.type_rates@, types_order()[k]) >= PPM_SCALE
        ==> fires[k])) by {
        if k == 0 {
        } else if k == 1 {
        } else if k == 2 {
        } else if k == 3 {
        } else if k == 4 {
        } else if k == 5 {
        } else if k == 6 {
        } else if k == 7 {
        } else if k == 8 {
        } else {
        }
    }
}

/// The anomaly injector: a seeded random source, the configuration, and the
/// set of claim ids this instance has already seen.
pub struct AnomalyInjector {
    rng: rand_chacha::ChaCha8Rng,
    config: AnomalyConfig,
    seen_claims: Vec<String>,
}

impl AnomalyInjector {
    /// The injector configuration.
    pub closed spec fn config_spec(self) -> AnomalyConfig {
        self.config
    }

    /// The claim ids this instance has seen.
    pub closed spec fn seen_set(self) -> Set<Seq<char>> {
        Set::new(
            |s: Seq<char>|
                exists|i: int|
                    0 <= i < self.seen_claims@.len() && (#[trigger] self.seen_claims@[i])@ == s,
        )
    }

    /// Builds an injector with an empty seen set, seeded when a seed is
    /// given and from the operating system otherwise.
    pub fn new(config: AnomalyConfig, seed: Option<u64>) -> (inj: Self)
        ensures
            inj.config_spec() == config,
            inj.seen_set() =~= Set::<Seq<char>>::empty(),
    {
        let rng = match seed {
            Some(s) => rng_from_seed(s),
            None => rng_from_entropy(),
        };
        let inj = AnomalyInjector { rng, config, seen_claims: Vec::new() };
        proof {
            assert forall|s: Seq<char>| !inj.seen_set().contains(s) by {
                assert(inj.seen_claims@.len() == 0);
            }
        }
        inj
    }

    /// Whether this instance has seen the id.
    fn seen_contains(&self, id: &String) -> (b: bool)
        ensures
            b == self.seen_set().contains(id@),
    {
        let mut k: usize = 0;
        while k < self.seen_claims.len()
            invariant
                k <= self.seen_claims@.len(),
                forall|i: int| 0 <= i < k ==> (#[trigger] self.seen_claims@[i])@ != id@,
            decreases self.seen_claims@.len() - k,
        {
            if self.seen_claims[k].eq(id) {
                assert(self.seen_set().contains(id@)) by {
                    assert(self.seen_claims@[k as int]@ == id@);
                }
                return true;
            }
            k = k + 1;
        }
        assert(!self.seen_set().contains(id@));
        false
    }

    /// Clears the claim id.
    fn inject_missing_field(&self, claim: &mut Claim) -> (a: Option<Anomaly>)
        ensures
            (match a {
                Some(x) => missing_field_rel(*old(claim), *final(claim), x),
                None => false,
            }),
    {
        let original = claim.claim_id.clone();
        claim.claim_id = String::new();
        Some(
            Anomaly {
                anomaly_type: AnomalyType::MissingField,
                description: String::from_str("Missing required claim_id"),
                field: Some(String::from_str("claim_id")),
                original_value: Some(original),
                new_value: Some(String::new()),
            },
        )
    }

    /// Sets the payment total above the charge total.
    fn inject_invalid_value(&self, claim: &mut Claim) -> (a: Option<Anomaly>)
        ensures
            (match a {
                Some(x) => invalid_value_rel(*old(claim), *final(claim), x),
                None => false,
            }),
    {
        let original = claim.total_payment;
        let bumped = if claim.total_charge <= u64::MAX - 1000 {
            claim.total_charge + 1000
        } else {
            u64::MAX
        };
        claim.total_payment = bumped;
        Some(
            Anomaly {
                anomaly_type: AnomalyType::InvalidValue,
                description: String::from_str("Payment exceeds charge"),
                field: Some(String::from_str("total_payment")),
                original_value: Some(crate::strfmt::u64_to_dec(original)),
                new_value: Some(crate::strfmt::u64_to_dec(bumped)),
            },
        )
    }

    /// Rewrites the first service line date to a fixed non-ISO string.
    fn inject_invalid_date_format(&self, claim: &mut Claim) -> (a: Option<Anomaly>)
        ensures
            (match a {
                Some(x) => invalid_date_rel(*old(claim), *final(claim), x),
                None => old(claim).service_lines@.len() == 0 && *final(claim) == *old(claim),
            }),
    {
        if claim.service_lines.len() == 0 {
            return None;
        }
        let ghost lines0 = claim.service_lines@;
        let mut line = claim.service_lines.remove(0);
        let ghost line0 = line;
        let original = line.service_date.clone();
        line.service_date = String::from_str("01/01/1970");
        claim.service_lines.insert(0, line);
        proof {
            assert(claim.service_lines@.len() == lines0.len());
            assert(claim.service_lines@[0].service_date@ == "01/01/1970"@);
            assert(forall|j: int|
                1 <= j < lines0.len() ==> #[trigger] claim.service_lines@[j] == lines0[j]);
            assert(line_same_but_date(lines0[0], claim.service_lines@[0]));
        }
        Some(
            Anomaly {
                anomaly_type: AnomalyType::InvalidDateFormat,
                description: String::from_str("Invalid service date format"),
                field: Some(String::from_str("service_date")),
                original_value: Some(original),
                new_value: Some(String::from_str("01/01/1970")),
            },
        )
    }

    /// Records the incoming claim id as seen, or declines when it was
    /// already seen.
    fn inject_duplicate_claim(&mut self, claim: &mut Claim) -> (a: Option<Anomaly>)
        ensures
            final(self).config_spec() == old(self).config_spec(),
            *final(claim) == *old(claim),
            step_rel(
                AnomalyType::DuplicateClaim,
                *old(claim),
                old(self).seen_set(),
                *final(claim),
                final(self).seen_set(),
                opt_seq(a),
            ),
    {
        proof {
            reveal(step_rel);
        }
        if self.seen_contains(&claim.claim_id) {
            return None;
        }
        let ghost old_set = self.seen_set();
        let idv = claim.claim_id.clone();
        self.seen_claims.push(claim.claim_id.clone());
        proof {
            assert(self.seen_set() =~= old_set.insert(idv@)) by {
                assert forall|s: Seq<char>|
                    self.seen_set().contains(s) implies old_set.insert(idv@).contains(s) by {
                    let i = choose|i: int|
                        0 <= i < self.seen_claims@.len() && (#[trigger] self.seen_claims@[i])@
                            == s;
                    if i < self.seen_claims@.len() - 1 {
                        assert(old(self).seen_claims@[i]@ == s);
                    } else {
                        assert(s == idv@);
                    }
                }
                assert forall|s: Seq<char>|
                    old_set.insert(idv@).contains(s) implies self.seen_set().contains(s) by {
                    if s == idv@ {
                        assert(self.seen_claims@[self.seen_claims@.len() - 1]@ == s);
                    } else {
                        let i = choose|i: int|
                            0 <= i < old(self).seen_claims@.len() && (
                            #[trigger] old(self).seen_claims@[i])@ == s;
                        assert(self.seen_claims@[i]@ == s);
                    }
                }
            }
        }
        Some(
            Anomaly {
                anomaly_type: AnomalyType::DuplicateClaim,
                description: String::from_str("Duplicate claim ID"),
                field: Some(String::from_str("claim_id")),
                original_value: Some(idv),
                new_value: None,
            },
        )
    }

    /// Overwrites the first service line procedure code with a sentinel.
    fn inject_invalid_procedure_code(&self, claim: &mut Claim) -> (a: Option<Anomaly>)
        ensures
            (match a {
                Some(x) => invalid_procedure_rel(*old(claim), *final(claim), x),
                None => old(claim).service_lines@.len() == 0 && *final(claim) == *old(claim),
            }),
    {
        if claim.service_lines.len() == 0 {
            return None;
        }
        let ghost lines0 = claim.service_lines@;
        let mut line = claim.service_lines.remove(0);
        let original = line.procedure_code.clone();
        line.procedure_code = String::from_str("INVALID_CODE");
        claim.service_lines.insert(0, line);
        proof {
            assert(claim.service_lines@.len() == lines0.len());
            assert(forall|j: int|
                1 <= j < lines0.len() ==> #[trigger] claim.service_lines@[j] == lines0[j]);
            assert(line_same_but_code(lines0[0], claim.service_lines@[0]));
        }
        Some(
            Anomaly {
                anomaly_type: AnomalyType::InvalidProcedureCode,
                description: String::from_str("Invalid procedure code"),
                field: Some(String::from_str("procedure_code")),
                original_value: Some(original),
                new_value: Some(String::from_str("INVALID_CODE")),
            },
        )
    }

    /// Overwrites the first service line modifiers with an identical pair of
    /// placeholder codes.
    fn inject_invalid_modifier_combination(&self, claim: &mut Claim) -> (a: Option<Anomaly>)
        ensures
            (match a {
                Some(x) => invalid_modifiers_rel(*old(claim), *final(claim), x),
                None => old(claim).service_lines@.len() == 0 && *final(claim) == *old(claim),
            }),
    {
        if claim.service_lines.len() == 0 {
            return None;
        }
        let ghost lines0 = claim.service_lines@;
        let mut line = claim.service_lines.remove(0);
        let original = render_modifier_list(&line.modifiers);
        let mut replacement: Vec<String> = Vec::new();
        replacement.push(String::from_str("AAA"));
        replacement.push(String::from_str("AAA"));
        line.modifiers = replacement;
        let rendered_new = render_modifier_list(&line.modifiers);
        claim.service_lines.insert(0, line);
        proof {
            assert(claim.service_lines@.len() == lines0.len());
            assert(forall|j: int|
                1 <= j < lines0.len() ==> #[trigger] claim.service_lines@[j] == lines0[j]);
            assert(line_same_but_modifiers(lines0[0], claim.service_lines@[0]));
            assert(claim.service_lines@[0].modifiers@[0]@ == "AAA"@);
            assert(claim.service_lines@[0].modifiers@[1]@ == "AAA"@);
        }
        Some(
            Anomaly {
                anomaly_type: AnomalyType::InvalidModifierCombination,
                description: String::from_str("Invalid modifier combination"),
                field: Some(String::from_str("modifiers")),
                original_value: Some(original),
                new_value: Some(rendered_new),
            },
        )
    }

    /// Flips the patient gender code.
    fn inject_age_gender_mismatch(&self, claim: &mut Claim) -> (a: Option<Anomaly>)
        ensures
            (match a {
                Some(x) => gender_mismatch_rel(*old(claim), *final(claim), x),
                None => false,
            }),
    {
        let original = claim.patient.gender.clone();
        let is_m = original.as_str().unicode_len() == 1 && {
            let c = original.as_str().get_char(0);
            c == 'M' || c == 'm'
        };
        let flipped = if is_m {
            String::from_str("F")
        } else {
            String::from_str("M")
        };
        proof {
            reveal_strlit("M");
            reveal_strlit("m");
            reveal_strlit("F");
            assert("M"@ =~= seq!['M']);
            assert("m"@ =~= seq!['m']);
            assert("F"@ =~= seq!['F']);
            if original@.len() == 1 {
                assert(original@ =~= seq![original@[0]]);
            }
        }
        claim.patient.gender = flipped;
        let new_value = claim.patient.gender.clone();
        Some(
            Anomaly {
                anomaly_type: AnomalyType::AgeGenderMismatch,
                description: String::from_str("Age/gender mismatch for procedure"),
                field: Some(String::from_str("patient.gender")),
                original_value: Some(original),
                new_value: Some(new_value),
            },
        )
    }

    /// Overwrites the billing provider NPI with a short placeholder.
    fn inject_invalid_provider(&self, claim: &mut Claim) -> (a: Option<Anomaly>)
        ensures
            (match a {
                Some(x) => invalid_provider_rel(*old(claim), *final(claim), x),
                None => false,
            }),
    {
        let original = claim.billing_provider.npi.clone();
        claim.billing_provider.npi = String::from_str("000");
        Some(
            Anomaly {
                anomaly_type: AnomalyType::InvalidProvider,
                description: String::from_str("Invalid provider NPI"),
                field: Some(String::from_str("billing_provider.npi")),
                original_value: Some(original),
                new_value: Some(String::from_str("000")),
            },
        )
    }

    /// Overwrites the patient date of birth with a syntactically invalid
    /// date.
    fn inject_invalid_patient_info(&self, claim: &mut Claim) -> (a: Option<Anomaly>)
        ensures
            (match a {
                Some(x) => invalid_patient_rel(*old(claim), *final(claim), x),
                None => false,
            }),
    {
        let original = claim.patient.date_of_birth.clone();
        claim.patient.date_of_birth = String::from_str("2010-13-40");
        Some(
            Anomaly {
                anomaly_type: AnomalyType::InvalidPatientInfo,
                description: String::from_str("Invalid patient date of birth"),
                field: Some(String::from_str("patient.date_of_birth")),
                original_value: Some(original),
                new_value: Some(String::from_str("2010-13-40")),
            },
        )
    }

    /// Records an anomaly with no field detail, leaving the claim untouched.
    fn inject_missing_documentation(&self, claim: &mut Claim) -> (a: Option<Anomaly>)
        ensures
            *final(claim) == *old(claim),
            (match a {
                Some(x) => missing_documentation_rel(x),
                None => false,
            }),
    {
        Some(
            Anomaly {
                anomaly_type: AnomalyType::MissingDocumentation,
                description: String::from_str("Missing documentation for claim"),
                field: None,
                original_value: None,
                new_value: None,
            },
        )
    }

    /// Applies the mutation rule for one kind to the claim.
    fn inject_anomaly(&mut self, anomaly_type: AnomalyType, claim: &mut Claim) -> (a: Option<
        Anomaly,
    >)
        ensures
            final(self).config_spec() == old(self).config_spec(),
            step_rel(
                anomaly_type,
                *old(claim),
                old(self).seen_set(),
                *final(claim),
                final(self).seen_set(),
                opt_seq(a),
            ),
    {
        proof {
            reveal(step_rel);
        }
        match anomaly_type {
            AnomalyType::MissingField => self.inject_missing_field(claim),
            AnomalyType::InvalidValue => self.inject_invalid_value(claim),
            AnomalyType::InvalidDateFormat => self.inject_invalid_date_format(claim),
            AnomalyType::DuplicateClaim => self.inject_duplicate_claim(claim),
            AnomalyType::InvalidProcedureCode => self.inject_invalid_procedure_code(claim),
            AnomalyType::InvalidModifierCombination => self.inject_invalid_modifier_combination(
                claim,
            ),
            AnomalyType::AgeGenderMismatch => self.inject_age_gender_mismatch(claim),
            AnomalyType::InvalidProvider => self.inject_invalid_provider(claim),
            AnomalyType::InvalidPatientInfo => self.inject_invalid_patient_info(claim),
            AnomalyType::MissingDocumentation => self.inject_missing_documentation(claim),
        }
    }

    /// Draws the trial for one kind, applies its rule when it fires, and
    /// appends whatever record the rule emitted.
    fn run_step(&mut self, t: AnomalyType, claim: &mut Claim, anomalies: &mut Vec<Anomaly>) -> (fired:
        bool)
        ensures
            final(self).config_spec() == old(self).config_spec(),
            final(anomalies)@.len() >= old(anomalies)@.len(),
            final(anomalies)@.take(old(anomalies)@.len() as int) == old(anomalies)@,
            one_step(
                t,
                fired,
                *old(claim),
                old(self).seen_set(),
                *final(claim),
                final(self).seen_set(),
                final(anomalies)@.skip(old(anomalies)@.len() as int),
            ),
            rate_of(old(self).config_spec().type_rates@, t) == 0 ==> !fired,
            rate_of(old(self).config_spec().type_rates@, t) >= PPM_SCALE ==> fired,
    {
        let rate = lookup_rate(&self.config.type_rates, t);
        let fired = draw_bernoulli_ppm(&mut self.rng, rate);
        if fired {
            let a = self.inject_anomaly(t, claim);
            match a {
                Some(x) => {
                    let ghost before = anomalies@;
                    anomalies.push(x);
                    proof {
                        assert(anomalies@.take(before.len() as int) =~= before);
                        assert(anomalies@.skip(before.len() as int) =~= opt_seq(a));
                    }
                },
                None => {
                    proof {
                        assert(anomalies@.take(anomalies@.len() as int) =~= anomalies@);
                        assert(anomalies@.skip(anomalies@.len() as int) =~= opt_seq(
                            Option::<Anomaly>::None,
                        ));
                    }
                },
            }
        } else {
            proof {
                assert(anomalies@.take(anomalies@.len() as int) =~= anomalies@);
                assert(anomalies@.skip(anomalies@.len() as int) =~= Seq::<Anomaly>::empty());
            }
        }
        fired
    }

    /// Considers a claim for corruption: one base-rate trial, then, when it
    /// passes, one independent trial per kind in [`types_order`] order, each
    /// firing kind's rule applied in turn. The returned claim carries every
    /// applied mutation; the records list them in test order.
    #[verifier::rlimit(100)]
    pub fn inject_anomalies(&mut self, claim: Claim) -> (res: AnomalyInjectionResult)
        ensures
            final(self).config_spec() == old(self).config_spec(),
            old(self).config_spec().base_rate == 0 ==> res.claim == claim && res.anomalies@
                =~= Seq::<Anomaly>::empty() && final(self).seen_set() == old(self).seen_set(),
            (res.claim == claim && res.anomalies@ =~= Seq::<Anomaly>::empty()
                && final(self).seen_set() == old(self).seen_set()) || injected_outcome(
                old(self).config_spec(),
                claim,
                old(self).seen_set(),
                res.claim,
                final(self).seen_set(),
                res.anomalies@,
            ),
            old(self).config_spec().base_rate >= PPM_SCALE ==> injected_outcome(
                old(self).config_spec(),
                claim,
                old(self).seen_set(),
                res.claim,
                final(self).seen_set(),
                res.anomalies@,
            ),
    {
        let mut claim = claim;
        let mut anomalies: Vec<Anomaly> = Vec::new();
        let ghost c0g = claim;
        let ghost s0g = self.seen_set();
        let ghost cfg = self.config;
        let gate = draw_bernoulli_ppm(&mut self.rng, self.config.base_rate);
        if !gate {
            return AnomalyInjectionResult { claim, anomalies };
        }
        let ghost a0g = anomalies@;
        let f1 = self.run_step(AnomalyType::DuplicateClaim, &mut claim, &mut anomalies);
        let ghost c1g = claim;
        let ghost s1g = self.seen_set();
        let ghost o1g = anomalies@.skip(a0g.len() as int);
        let ghost a1g = anomalies@;
        proof {
            assert(a1g =~= a0g + o1g);
        }
        let f2 = self.run_step(AnomalyType::MissingField, &mut claim, &mut anomalies);
        let ghost c2g = claim;
        let ghost s2g = self.seen_set();
        let ghost o2g = anomalies@.skip(a1g.len() as int);
        let ghost a2g = anomalies@;
        proof {
            assert(a2g =~= a1g + o2g);
        }
        let f3 = self.run_step(AnomalyType::InvalidValue, &mut claim, &mut anomalies);
        let ghost c3g = claim;
        let ghost s3g = self.seen_set();
        let ghost o3g = anomalies@.skip(a2g.len() as int);
        let ghost a3g = anomalies@;
        proof {
            assert(a3g =~= a2g + o3g);
        }
        let f4 = self.run_step(AnomalyType::InvalidDateFormat, &mut claim, &mut anomalies);
        let ghost c4g = claim;
        let ghost s4g = self.seen_set();
        let ghost o4g = anomalies@.skip(a3g.len() as int);
        let ghost a4g = anomalies@;
        proof {
            assert(a4g =~= a3g + o4g);
        }
        let f5 = self.run_step(AnomalyType::InvalidProcedureCode, &mut claim, &mut anomalies);
        let ghost c5g = claim;
        let ghost s5g = self.seen_set();
        let ghost o5g = anomalies@.skip(a4g.len() as int);
        let ghost a5g = anomalies@;
        proof {
            assert(a5g =~= a4g + o5g);
        }
        let f6 = self.run_step(AnomalyType::InvalidModifierCombination, &mut claim, &mut anomalies);
        let ghost c6g = claim;
        let ghost s6g = self.seen_set();
        let ghost o6g = anomalies@.skip(a5g.len() as int);
        let ghost a6g = anomalies@;
        proof {
            assert(a6g =~= a5g + o6g);
        }
        let f7 = self.run_step(AnomalyType::AgeGenderMismatch, &mut claim, &mut anomalies);
        let ghost c7g = claim;
        let ghost s7g = self.seen_set();
        let ghost o7g = anomalies@.skip(a6g.len() as int);
        let ghost a7g = anomalies@;
        proof {
            assert(a7g =~= a6g + o7g);
        }
        let f8 = self.run_step(AnomalyType::InvalidProvider, &mut claim, &mut anomalies);
        let ghost c8g = claim;
        let ghost s8g = self.seen_set();
        let ghost o8g = anomalies@.skip(a7g.len() as int);
        let ghost a8g = anomalies@;
        proof {
            assert(a8g =~= a7g + o8g);
        }
        let f9 = self.run_step(AnomalyType::InvalidPatientInfo, &mut claim, &mut anomalies);
        let ghost c9g = claim;
        let ghost s9g = self.seen_set();
        let ghost o9g = anomalies@.skip(a8g.len() as int);
        let ghost a9g = anomalies@;
        proof {
            assert(a9g =~= a8g + o9g);
        }
        let f10 = self.run_step(AnomalyType::MissingDocumentation, &mut claim, &mut anomalies);
        let ghost c10g = claim;
        let ghost s10g = self.seen_set();
        let ghost o10g = anomalies@.skip(a9g.len() as int);
        let ghost a10g = anomalies@;
        proof {
            assert(a10g =~= a9g + o10g);
        }
        proof {
            lemma_assemble_trace(
                cfg,
                c0g, c1g, c2g, c3g, c4g, c5g, c6g, c7g, c8g, c9g, c10g,
                s0g, s1g, s2g, s3g, s4g, s5g, s6g, s7g, s8g, s9g, s10g,
                f1, f2, f3, f4, f5, f6, f7, f8, f9, f10,
                o1g, o2g, o3g, o4g, o5g, o6g, o7g, o8g, o9g, o10g,
                a1g, a2g, a3g, a4g, a5g, a6g, a7g, a8g, a9g, a10g,
            );
        }
        AnomalyInjectionResult { claim, anomalies }
    }
}

/// Renders a modifier list as its entries quoted, comma separated, in
/// brackets.
fn render_modifier_list(mods: &Vec<String>) -> (s: String)
    ensures
        s@ == modifier_list_str(mods@),
{
    proof {
        reveal_strlit("[]");
    }
    if mods.len() == 0 {
        let mut s = String::new();
        crate::strfmt::push_char(&mut s, '[');
        crate::strfmt::push_char(&mut s, ']');
        assert(s@ =~= "[]"@);
        s
    } else {
        let mut s = String::new();
        crate::strfmt::push_char(&mut s, '[');
        crate::strfmt::push_char(&mut s, '"');
        s.append(mods[0].as_str());
        crate::strfmt::push_char(&mut s, '"');
        proof {
            assert(mods@.take(1).len() == 1);
            assert(mods@.take(1)[0] == mods@[0]);
            assert(s@ + seq![']'] =~= modifier_list_str(mods@.take(1)));
        }
        let mut j: usize = 1;
        while j < mods.len()
            invariant
                1 <= j <= mods@.len(),
                s@ + seq![']'] == modifier_list_str(mods@.take(j as int)),
            decreases mods@.len() - j,
        {
            let ghost s_old = s@;
            crate::strfmt::push_char(&mut s, ',');
            crate::strfmt::push_char(&mut s, ' ');
            crate::strfmt::push_char(&mut s, '"');
            s.append(mods[j].as_str());
            crate::strfmt::push_char(&mut s, '"');
            proof {
                let jj = j as int;
                assert(mods@.take(jj + 1).drop_last() =~= mods@.take(jj));
                assert(mods@.take(jj + 1).last() == mods@[jj]);
                assert(mods@.take(jj + 1).len() == jj + 1);
                assert(modifier_list_str(mods@.take(jj + 1)) == modifier_list_str(
                    mods@.take(jj),
                ).drop_last() + seq![',', ' ', '"'] + mods@[jj]@ + seq!['"', ']']);
                assert(modifier_list_str(mods@.take(jj)).drop_last() =~= s_old);
                assert(s@ + seq![']'] =~= modifier_list_str(mods@.take(jj + 1)));
            }
            j = j + 1;
        }
        crate::strfmt::push_char(&mut s, ']');
        proof {
            assert(mods@.take(mods@.len() as int) =~= mods@);
        }
        s
    }
}


/// No mutation rule adds or removes a service line, so a full trace
/// preserves the line count.
pub proof fn lemma_trace_preserves_line_count(
    c0: Claim,
    s0: Set<Seq<char>>,
    fires: Seq<bool>,
    claims: Seq<Claim>,
    seens: Seq<Set<Seq<char>>>,
    outs: Seq<Seq<Anomaly>>,
    c_end: Claim,
    s_end: Set<Seq<char>>,
    out_all: Seq<Anomaly>,
)
    requires
        trace_ok(c0, s0, fires, claims, seens, outs, c_end, s_end, out_all),
    ensures
        c_end.service_lines@.len() == c0.service_lines@.len(),
{
    assert forall|k: int|
        0 <= k < 10 implies (#[trigger] claims[k + 1]).service_lines@.len()
        == claims[k].service_lines@.len() by {
        reveal(step_rel);
        assert(one_step(
            types_order()[k],
            fires[k],
            claims[k],
            seens[k],
            claims[k + 1],
            seens[k + 1],
            outs[k],
        ));
    }
    assert forall|k: int| 0 <= k <= 10 implies #[trigger] claims[k].service_lines@.len()
        == claims[0].service_lines@.len() by {
        lemma_lines_len_stable(claims, k);
    }
}

/// Helper: the line count is constant along the trace.
proof fn lemma_lines_len_stable(claims: Seq<Claim>, k: int)
    requires
        claims.len() == 11,
        0 <= k <= 10,
        forall|l: int|
            0 <= l < 10 ==> (#[trigger] claims[l + 1]).service_lines@.len()
                == claims[l].service_lines@.len(),
    ensures
        claims[k].service_lines@.len() == claims[0].service_lines@.len(),
    decreases k,
{
    if k > 0 {
        assert(claims[(k - 1) + 1].service_lines@.len() == claims[k - 1].service_lines@.len());
        lemma_lines_len_stable(claims, k - 1);
    }
}

/// Law: one injector instance flags a given claim id as a duplicate at most
/// once across its lifetime. Within one pass at most one duplicate record is
/// emitted, and when two claims carrying the same id pass through the same
/// instance in turn, the two passes never both emit one: whichever pass
/// records the id first leaves it in the seen set, and a seen id is declined.
pub proof fn lemma_duplicate_flagged_at_most_once(
    cfg1: AnomalyConfig,
    cfg2: AnomalyConfig,
    ca: Claim,
    cb: Claim,
    s0: Set<Seq<char>>,
    s1: Set<Seq<char>>,
    s2: Set<Seq<char>>,
    ca1: Claim,
    cb1: Claim,
    out1: Seq<Anomaly>,
    out2: Seq<Anomaly>,
)
    requires
        cb.claim_id@ == ca.claim_id@,
        injected_outcome(cfg1, ca, s0, ca1, s1, out1),
        injected_outcome(cfg2, cb, s1, cb1, s2, out2),
    ensures
        forall|j: int, l: int|
            0 <= j < out1.len() && 0 <= l < out1.len() && (#[trigger] out1[j]).anomaly_type
                == AnomalyType::DuplicateClaim && (#[trigger] out1[l]).anomaly_type
                == AnomalyType::DuplicateClaim ==> j == l,
        forall|j: int, l: int|
            0 <= j < out2.len() && 0 <= l < out2.len() && (#[trigger] out2[j]).anomaly_type
                == AnomalyType::DuplicateClaim && (#[trigger] out2[l]).anomaly_type
                == AnomalyType::DuplicateClaim ==> j == l,
        !((exists|j: int|
            0 <= j < out1.len() && (#[trigger] out1[j]).anomaly_type
                == AnomalyType::DuplicateClaim) && (exists|l: int|
            0 <= l < out2.len() && (#[trigger] out2[l]).anomaly_type
                == AnomalyType::DuplicateClaim)),
{
    let (fires1, claims1, seens1, outs1) = choose|
        fires: Seq<bool>,
        claims: Seq<Claim>,
        seens: Seq<Set<Seq<char>>>,
        outs: Seq<Seq<Anomaly>>,
    |
        {
            &&& #[trigger] trace_ok(ca, s0, fires, claims, seens, outs, ca1, s1, out1)
            &&& forall|k: int|
                0 <= k < 10 ==> ((rate_of(cfg1.type_rates@, types_order()[k]) == 0 ==> !(
                #[trigger] fires[k])) && (rate_of(cfg1.type_rates@, types_order()[k])
                    >= PPM_SCALE ==> fires[k]))
        };
    lemma_trace_duplicate_props(ca, s0, fires1, claims1, seens1, outs1, ca1, s1, out1);
    let (fires2, claims2, seens2, outs2) = choose|
        fires: Seq<bool>,
        claims: Seq<Claim>,
        seens: Seq<Set<Seq<char>>>,
        outs: Seq<Seq<Anomaly>>,
    |
        {
            &&& #[trigger] trace_ok(cb, s1, fires, claims, seens, outs, cb1, s2, out2)
            &&& forall|k: int|
                0 <= k < 10 ==> ((rate_of(cfg2.type_rates@, types_order()[k]) == 0 ==> !(
                #[trigger] fires[k])) && (rate_of(cfg2.type_rates@, types_order()[k])
                    >= PPM_SCALE ==> fires[k]))
        };
    lemma_trace_duplicate_props(cb, s1, fires2, claims2, seens2, outs2, cb1, s2, out2);
    if exists|j: int|
        0 <= j < out1.len() && (#[trigger] out1[j]).anomaly_type == AnomalyType::DuplicateClaim {
        assert(s1.contains(ca.claim_id@));
    }
}

} // verus!
