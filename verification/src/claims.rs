//! Claim assembly: a claim is composed from a patient and one or two
//! providers, with one to five service lines sampled from the procedure
//! table. Totals are accumulated across the lines, and patient
//! responsibility and status are derived from them. Draw order per claim is
//! fixed (claim id, line count, then per line: procedure, payment fraction,
//! modifier count and picks) so that a seeded run is reproducible.

use vstd::prelude::*;
use crate::calendar::{is_date_string_for, MAX_DAY_NUMBER};
use crate::clock::{today_day_number, EPOCH_DAY_NUMBER};
use crate::population::{Person, Provider};
use crate::rng::{draw_range, rng_below, rng_from_seed, rng_from_entropy};
use crate::strfmt::{dec_digits, lemma_dec_digits_len, u64_to_dec};
use crate::vocab::contains_view;

verus! {

/// One billed procedure within a claim. Amounts are in minor currency units
/// (cents).
#[derive(Debug, Clone)]
pub struct ServiceLine {
    pub line_number: u32,
    pub procedure_code: String,
    pub procedure_description: String,
    pub service_date: String,
    pub charge_amount: u64,
    pub payment_amount: u64,
    pub paid_amount: u64,
    pub adjustment_amount: u64,
    pub units: u32,
    pub place_of_service: String,
    pub revenue_code: Option<String>,
    pub modifiers: Vec<String>,
}

/// Claim payment status, derived from the totals.
#[derive(Debug, Clone, Copy, PartialEq, Eq, Structural)]
pub enum ClaimStatus {
    Paid,
    Denied,
    Partial,
    Pending,
}

/// A synthetic healthcare claim.
#[derive(Debug, Clone)]
pub struct Claim {
    pub claim_id: String,
    pub patient: Person,
    pub billing_provider: Provider,
    pub rendering_provider: Option<Provider>,
    pub service_lines: Vec<ServiceLine>,
    pub total_charge: u64,
    pub total_payment: u64,
    pub total_adjustment: u64,
    pub patient_responsibility: u64,
    pub status: ClaimStatus,
}

/// One row of the procedure table.
#[derive(Debug, Clone)]
pub struct ProcedureCode {
    pub code: String,
    pub description: String,
    pub typical_charge: u64,
    pub typical_units: u32,
}

/// One row of the place-of-service table.
#[derive(Debug, Clone)]
pub struct PosEntry {
    pub pos: String,
    pub description: String,
}

/// Largest charge one service line may carry, so that the payment-fraction
/// product and the five-line totals never overflow.
pub const MAX_LINE_CHARGE: u64 = 10000000000000;

/// Sum of the lines' charge amounts.
pub open spec fn sum_charges(lines: Seq<ServiceLine>) -> int
    decreases lines.len(),
{
    if lines.len() == 0 {
        0
    } else {
        sum_charges(lines.drop_last()) + lines.last().charge_amount
    }
}

/// Sum of the lines' payment amounts.
pub open spec fn sum_payments(lines: Seq<ServiceLine>) -> int
    decreases lines.len(),
{
    if lines.len() == 0 {
        0
    } else {
        sum_payments(lines.drop_last()) + lines.last().payment_amount
    }
}

/// Sum of the lines' adjustment amounts.
pub open spec fn sum_adjustments(lines: Seq<ServiceLine>) -> int
    decreases lines.len(),
{
    if lines.len() == 0 {
        0
    } else {
        sum_adjustments(lines.drop_last()) + lines.last().adjustment_amount
    }
}

/// The status the totals dictate: denied when nothing was paid, partial when
/// less than the charge, paid otherwise.
pub open spec fn status_for(total_payment: int, total_charge: int) -> ClaimStatus {
    if total_payment == 0 {
        ClaimStatus::Denied
    } else if total_payment < total_charge {
        ClaimStatus::Partial
    } else {
        ClaimStatus::Paid
    }
}

/// The invariant a claim satisfies when it leaves the claim generator (and
/// before any anomaly is injected): totals are the sums over the lines,
/// patient responsibility is half the unpaid part, and the status matches.
pub open spec fn claim_consistent(c: Claim) -> bool {
    &&& c.total_charge == sum_charges(c.service_lines@)
    &&& c.total_payment == sum_payments(c.service_lines@)
    &&& c.total_adjustment == sum_adjustments(c.service_lines@)
    &&& c.total_payment <= c.total_charge
    &&& c.patient_responsibility == (c.total_charge - c.total_payment) / 2
    &&& c.status == status_for(c.total_payment as int, c.total_charge as int)
    &&& 1 <= c.service_lines@.len() <= 5
}

/// Appending one line adds its amounts to each sum.
proof fn lemma_sums_push(lines: Seq<ServiceLine>, l: ServiceLine)
    ensures
        sum_charges(lines.push(l)) == sum_charges(lines) + l.charge_amount,
        sum_payments(lines.push(l)) == sum_payments(lines) + l.payment_amount,
        sum_adjustments(lines.push(l)) == sum_adjustments(lines) + l.adjustment_amount,
{
    assert(lines.push(l).drop_last() =~= lines);
    assert(lines.push(l).last() == l);
}

/// Whether some table row equals `row`.
pub open spec fn table_contains(t: Seq<ProcedureCode>, row: ProcedureCode) -> bool {
    exists|i: int| 0 <= i < t.len() && t[i] == row
}

/// The usable input rows are kept and nothing else is.
pub open spec fn rows_kept_exactly(input: Seq<ProcedureCode>, kept: Seq<ProcedureCode>) -> bool {
    &&& forall|j: int|
        0 <= j < input.len() && (#[trigger] input[j]).typical_charge <= MAX_LINE_CHARGE
            ==> table_contains(kept, input[j])
    &&& forall|i: int| 0 <= i < kept.len() ==> table_contains(input, #[trigger] kept[i])
}

/// Whether every charge in the table is positive.
pub open spec fn all_charges_positive(t: Seq<ProcedureCode>) -> bool {
    forall|i: int| 0 <= i < t.len() ==> (#[trigger] t[i]).typical_charge > 0
}

/// Whether no two entries of the list read the same.
pub open spec fn no_duplicate_entries(t: Seq<String>) -> bool {
    forall|a: int, b: int|
        0 <= a < t.len() && 0 <= b < t.len() && a != b ==> (#[trigger] t[a])@ != (
        #[trigger] t[b])@
}

/// The built-in default procedure table: one office-visit row.
pub open spec fn is_default_procedure_table(t: Seq<ProcedureCode>) -> bool {
    &&& t.len() == 1
    &&& t[0].code@ == "99213"@
    &&& t[0].description@
        == "Office or other outpatient visit for the evaluation and management of an established patient"@
    &&& t[0].typical_charge == 15000
    &&& t[0].typical_units == 1
}

/// The built-in default modifier list.
pub open spec fn is_default_modifier_list(m: Seq<String>) -> bool {
    &&& m.len() == 4
    &&& m[0]@ == "25"@
    &&& m[1]@ == "59"@
    &&& m[2]@ == "LT"@
    &&& m[3]@ == "RT"@
}

/// The built-in default place-of-service table.
pub open spec fn is_default_pos_table(p: Seq<PosEntry>) -> bool {
    &&& p.len() == 4
    &&& p[0].pos@ == "11"@ && p[0].description@ == "Office"@
    &&& p[1].pos@ == "21"@ && p[1].description@ == "Inpatient Hospital"@
    &&& p[2].pos@ == "22"@ && p[2].description@ == "Outpatient Hospital"@
    &&& p[3].pos@ == "23"@ && p[3].description@ == "Emergency Room"@
}

/// What holds of service line `l` at position `i` of a freshly generated
/// claim, drawn from the given procedure and modifier tables (the service
/// date is stated apart): amounts tie to one procedure row, the payment
/// never exceeds the charge, the adjustment is their difference, the place
/// of service is the office default, and up to two modifiers come from the
/// table, from distinct positions.
pub open spec fn line_from_tables(
    l: ServiceLine,
    i: int,
    procedures: Seq<ProcedureCode>,
    modifiers: Seq<String>,
) -> bool {
    &&& l.line_number == i + 1
    &&& l.charge_amount <= MAX_LINE_CHARGE
    &&& l.payment_amount <= l.charge_amount
    &&& l.paid_amount == l.payment_amount
    &&& l.adjustment_amount == l.charge_amount - l.payment_amount
    &&& l.place_of_service@ == "11"@
    &&& l.revenue_code is None
    &&& exists|pi: int|
        0 <= pi < procedures.len() && {
            let row = #[trigger] procedures[pi];
            &&& l.procedure_code@ == row.code@
            &&& l.procedure_description@ == row.description@
            &&& l.charge_amount == row.typical_charge
            &&& l.units == row.typical_units
        }
    &&& l.modifiers@.len() <= 2
    &&& forall|k: int|
        0 <= k < l.modifiers@.len() ==> contains_view(modifiers, (#[trigger] l.modifiers@[k])@)
    &&& (no_duplicate_entries(modifiers) && l.modifiers@.len() == 2 ==> l.modifiers@[0]@
        != l.modifiers@[1]@)
}

/// Every line of the list carries the date whose day number is `td`.
pub open spec fn lines_dated(lines: Seq<ServiceLine>, td: int) -> bool {
    forall|i: int|
        0 <= i < lines.len() ==> #[trigger] is_date_string_for(lines[i].service_date@, td)
}

/// The claim generator: a seeded random source plus the procedure, modifier
/// and place-of-service tables.
pub struct ClaimGenerator {
    rng: rand_chacha::ChaCha8Rng,
    procedure_codes: Vec<ProcedureCode>,
    modifiers: Vec<String>,
    place_of_service_codes: Vec<PosEntry>,
}

impl ClaimGenerator {
    /// The procedure table draws sample from.
    pub closed spec fn procedures_spec(self) -> Seq<ProcedureCode> {
        self.procedure_codes@
    }

    /// The modifier list draws sample from.
    pub closed spec fn modifiers_spec(self) -> Seq<String> {
        self.modifiers@
    }

    /// The place-of-service table.
    pub closed spec fn pos_spec(self) -> Seq<PosEntry> {
        self.place_of_service_codes@
    }

    /// The table is usable: non-empty, with every charge bounded so that a
    /// five-line total cannot overflow.
    pub closed spec fn wf(self) -> bool {
        self.procedure_codes@.len() > 0 && forall|i: int|
            0 <= i < self.procedure_codes@.len() ==> (
            #[trigger] self.procedure_codes@[i]).typical_charge <= MAX_LINE_CHARGE
    }

    /// Builds a generator over the built-in default tables, seeded when a
    /// seed is given and from the operating system otherwise.
    pub fn new(seed: Option<u64>) -> (g: Self)
        ensures
            g.wf(),
            is_default_procedure_table(g.procedures_spec()),
            is_default_modifier_list(g.modifiers_spec()),
            is_default_pos_table(g.pos_spec()),
            all_charges_positive(g.procedures_spec()),
    {
        let mut procedure_codes: Vec<ProcedureCode> = Vec::new();
        procedure_codes.push(
            ProcedureCode {
                code: String::from_str("99213"),
                description: String::from_str(
                    "Office or other outpatient visit for the evaluation and management of an established patient",
                ),
                typical_charge: 15000,
                typical_units: 1,
            },
        );
        let mut modifiers: Vec<String> = Vec::new();
        modifiers.push(String::from_str("25"));
        modifiers.push(String::from_str("59"));
        modifiers.push(String::from_str("LT"));
        modifiers.push(String::from_str("RT"));
        let mut place_of_service_codes: Vec<PosEntry> = Vec::new();
        place_of_service_codes.push(
            PosEntry { pos: String::from_str("11"), description: String::from_str("Office") },
        );
        place_of_service_codes.push(
            PosEntry {
                pos: String::from_str("21"),
                description: String::from_str("Inpatient Hospital"),
            },
        );
        place_of_service_codes.push(
            PosEntry {
                pos: String::from_str("22"),
                description: String::from_str("Outpatient Hospital"),
            },
        );
        place_of_service_codes.push(
            PosEntry {
                pos: String::from_str("23"),
                description: String::from_str("Emergency Room"),
            },
        );
        let ghost input = procedure_codes@;
        let g = Self::with_tables(seed, procedure_codes, modifiers, place_of_service_codes);
        proof {
            assert(input[0].typical_charge <= MAX_LINE_CHARGE);
            assert(rows_kept_exactly(input, g.procedures_spec()));
            assert(g.procedures_spec().len() >= 1);
            assert(table_contains(input, g.procedures_spec()[0]));
            let j = choose|j: int|
                0 <= j < input.len() && input[j] == g.procedures_spec()[0];
            assert(g.procedures_spec()[0] == input[0]);
        }
        g
    }

    /// Builds a generator over outside-sourced tables. Rows with an
    /// oversized charge are dropped; when no usable procedure row is left, a
    /// synthetic fallback row is installed so that sampling never fails.
    pub fn with_tables(
        seed: Option<u64>,
        procedure_codes: Vec<ProcedureCode>,
        modifiers: Vec<String>,
        place_of_service_codes: Vec<PosEntry>,
    ) -> (g: Self)
        ensures
            g.wf(),
            g.modifiers_spec() == modifiers@,
            g.pos_spec() == place_of_service_codes@,
            (exists|j: int|
                0 <= j < procedure_codes@.len() && (
                #[trigger] procedure_codes@[j]).typical_charge <= MAX_LINE_CHARGE)
                ==> rows_kept_exactly(procedure_codes@, g.procedures_spec())
                    && g.procedures_spec().len() <= procedure_codes@.len(),
    {
        let rng = match seed {
            Some(s) => rng_from_seed(s),
            None => rng_from_entropy(),
        };
        let mut kept: Vec<ProcedureCode> = Vec::new();
        let mut k: usize = 0;
        while k < procedure_codes.len()
            invariant
                k <= procedure_codes@.len(),
                kept@.len() <= k,
                forall|i: int|
                    0 <= i < kept@.len() ==> (#[trigger] kept@[i]).typical_charge
                        <= MAX_LINE_CHARGE,
                forall|j: int|
                    0 <= j < k && (#[trigger] procedure_codes@[j]).typical_charge
                        <= MAX_LINE_CHARGE ==> table_contains(kept@, procedure_codes@[j]),
                forall|i: int|
                    0 <= i < kept@.len() ==> table_contains(
                        procedure_codes@,
                        #[trigger] kept@[i],
                    ),
            decreases procedure_codes@.len() - k,
        {
            let e = &procedure_codes[k];
            if e.typical_charge <= MAX_LINE_CHARGE {
                let row = ProcedureCode {
                    code: e.code.clone(),
                    description: e.description.clone(),
                    typical_charge: e.typical_charge,
                    typical_units: e.typical_units,
                };
                let ghost kept0 = kept@;
                kept.push(row);
                proof {
                    assert(kept@[kept@.len() - 1] == procedure_codes@[k as int]);
                    assert(forall|i: int| 0 <= i < kept0.len() ==> kept@[i] == kept0[i]);
                    assert(table_contains(kept@, procedure_codes@[k as int]));
                    assert forall|j: int|
                        0 <= j < k + 1 && (#[trigger] procedure_codes@[j]).typical_charge
                            <= MAX_LINE_CHARGE implies table_contains(
                        kept@,
                        procedure_codes@[j],
                    ) by {
                        if j < k {
                            let i = choose|i: int|
                                0 <= i < kept0.len() && kept0[i] == procedure_codes@[j];
                            assert(kept@[i] == procedure_codes@[j]);
                        }
                    }
                }
            }
            k = k + 1;
        }
        if kept.len() == 0 {
            kept.push(
                ProcedureCode {
                    code: String::from_str("99213"),
                    description: String::from_str(
                        "Office or other outpatient visit for the evaluation and management of an established patient",
                    ),
                    typical_charge: 15000,
                    typical_units: 1,
                },
            );
        }
        ClaimGenerator { rng, procedure_codes: kept, modifiers, place_of_service_codes }
    }

    /// Composes a claim dated on the day numbered `today`: a fresh claim id,
    /// one to five service lines sampled from the procedure table, running
    /// totals, and the derived patient responsibility and status.
    pub fn generate_claim_on(
        &mut self,
        patient: Person,
        billing_provider: Provider,
        rendering_provider: Option<Provider>,
        today: u32,
    ) -> (c: Claim)
        requires
            old(self).wf(),
            EPOCH_DAY_NUMBER <= today <= MAX_DAY_NUMBER,
        ensures
            final(self).wf(),
            final(self).procedures_spec() == old(self).procedures_spec(),
            final(self).modifiers_spec() == old(self).modifiers_spec(),
            claim_consistent(c),
            c.patient == patient,
            c.billing_provider == billing_provider,
            c.rendering_provider == rendering_provider,
            c.claim_id@.len() == 11,
            exists|n: int|
                10000000 <= n <= 99999999 && c.claim_id@ == seq!['C', 'L', 'M'] + #[trigger] dec_digits(
                    n as nat,
                ),
            forall|i: int|
                0 <= i < c.service_lines@.len() ==> line_from_tables(
                    #[trigger] c.service_lines@[i],
                    i,
                    old(self).procedures_spec(),
                    old(self).modifiers_spec(),
                ),
            forall|i: int|
                0 <= i < c.service_lines@.len() ==> is_date_string_for(
                    (#[trigger] c.service_lines@[i]).service_date@,
                    today as int,
                ),
            all_charges_positive(old(self).procedures_spec()) ==> c.total_charge > 0,
    {
        proof {
            reveal_strlit("CLM");
            assert("CLM"@ =~= seq!['C', 'L', 'M']);
        }
        let id_num = draw_range(&mut self.rng, 10000000, 99999999);
        let mut claim_id = String::from_str("CLM");
        claim_id.append(u64_to_dec(id_num).as_str());
        proof {
            reveal_with_fuel(crate::strfmt::pow10, 9);
            lemma_dec_digits_len(id_num as nat, 8);
            let m: int = id_num as int;
            assert(10000000 <= m <= 99999999);
            assert(claim_id@ == seq!['C', 'L', 'M'] + dec_digits(m as nat));
        }
        let service_date = crate::calendar::date_string_of_days(today);
        let num_lines = draw_range(&mut self.rng, 1, 5) as usize;
        let mut service_lines: Vec<ServiceLine> = Vec::new();
        let mut total_charge: u64 = 0;
        let mut total_payment: u64 = 0;
        let mut total_adjustment: u64 = 0;
        let mut i: usize = 0;
        while i < num_lines
            invariant
                old(self).wf(),
                self.wf(),
                self.procedures_spec() == old(self).procedures_spec(),
                self.modifiers_spec() == old(self).modifiers_spec(),
                EPOCH_DAY_NUMBER <= today <= MAX_DAY_NUMBER,
                num_lines <= 5,
                i <= num_lines,
                service_lines@.len() == i,
                total_charge == sum_charges(service_lines@),
                total_payment == sum_payments(service_lines@),
                total_adjustment == sum_adjustments(service_lines@),
                total_payment <= total_charge,
                total_adjustment == total_charge - total_payment,
                total_charge <= i * MAX_LINE_CHARGE,
                is_date_string_for(service_date@, today as int),
                forall|j: int|
                    0 <= j < service_lines@.len() ==> line_from_tables(
                        #[trigger] service_lines@[j],
                        j,
                        self.procedures_spec(),
                        self.modifiers_spec(),
                    ),
                forall|j: int|
                    0 <= j < service_lines@.len() ==> is_date_string_for(
                        (#[trigger] service_lines@[j]).service_date@,
                        today as int,
                    ),
                all_charges_positive(self.procedures_spec()) && i > 0 ==> total_charge > 0,
            decreases num_lines - i,
        {
            let pidx = rng_below(&mut self.rng, self.procedure_codes.len() as u64) as usize;
            let procedure = &self.procedure_codes[pidx];
            let charge_amount = procedure.typical_charge;
            proof {
                assert(self.procedures_spec()[pidx as int].typical_charge <= MAX_LINE_CHARGE);
            }
            let fraction = draw_range(&mut self.rng, 500000, 999999);
            proof {
                assert(charge_amount * fraction <= 10000000000000int * 1000000int)
                    by (nonlinear_arith)
                    requires
                        0 <= fraction <= 1000000,
                        0 <= charge_amount <= 10000000000000int,
                ;
            }
            let payment_amount = charge_amount * fraction / 1000000;
            proof {
                assert(charge_amount * fraction <= charge_amount * 1000000) by (nonlinear_arith)
                    requires
                        fraction <= 1000000,
                        charge_amount >= 0,
                ;
                assert(charge_amount * 1000000 / 1000000 == charge_amount) by (nonlinear_arith);
                assert(charge_amount * fraction / 1000000 <= charge_amount * 1000000 / 1000000)
                    by (nonlinear_arith)
                    requires
                        charge_amount * fraction <= charge_amount * 1000000,
                ;
            }
            let adjustment_amount = charge_amount - payment_amount;
            let num_modifiers = rng_below(&mut self.rng, 3);
            let mut modifiers: Vec<String> = Vec::new();
            let ghost mods_table = self.modifiers@;
            if num_modifiers >= 1 && self.modifiers.len() >= 1 {
                let m1 = rng_below(&mut self.rng, self.modifiers.len() as u64) as usize;
                modifiers.push(self.modifiers[m1].clone());
                proof {
                    assert(modifiers@[0]@ == mods_table[m1 as int]@);
                    assert(contains_view(mods_table, modifiers@[0]@));
                }
                if num_modifiers == 2 && self.modifiers.len() >= 2 {
                    let raw = rng_below(&mut self.rng, (self.modifiers.len() - 1) as u64) as usize;
                    let m2 = if raw >= m1 {
                        raw + 1
                    } else {
                        raw
                    };
                    modifiers.push(self.modifiers[m2].clone());
                    proof {
                        assert(modifiers@[1]@ == mods_table[m2 as int]@);
                        assert(contains_view(mods_table, modifiers@[1]@));
                        assert(m2 != m1);
                        assert(no_duplicate_entries(mods_table) ==> modifiers@[0]@
                            != modifiers@[1]@);
                    }
                }
            }
            proof {
                assert(forall|k: int|
                    0 <= k < modifiers@.len() ==> contains_view(
                        mods_table,
                        (#[trigger] modifiers@[k])@,
                    ));
                assert(no_duplicate_entries(mods_table) && modifiers@.len() == 2
                    ==> modifiers@[0]@ != modifiers@[1]@);
            }
            let code = procedure.code.clone();
            let description = procedure.description.clone();
            let units = procedure.typical_units;
            let line = ServiceLine {
                line_number: (i + 1) as u32,
                procedure_code: code,
                procedure_description: description,
                service_date: service_date.clone(),
                charge_amount,
                payment_amount,
                paid_amount: payment_amount,
                adjustment_amount,
                units,
                place_of_service: String::from_str("11"),
                revenue_code: None,
                modifiers,
            };
            proof {
                lemma_sums_push(service_lines@, line);
                assert(line.procedure_code@ == self.procedures_spec()[pidx as int].code@);
                assert(line.procedure_description@ == self.procedures_spec()[
                    pidx as int
                ].description@);
                assert(line.charge_amount == self.procedures_spec()[pidx as int].typical_charge);
                assert(line.units == self.procedures_spec()[pidx as int].typical_units);
                assert(line_from_tables(
                    line,
                    i as int,
                    self.procedures_spec(),
                    self.modifiers_spec(),
                ));
                if all_charges_positive(self.procedures_spec()) {
                    assert(self.procedures_spec()[pidx as int].typical_charge > 0);
                }
            }
            service_lines.push(line);
            total_charge = total_charge + charge_amount;
            total_payment = total_payment + payment_amount;
            total_adjustment = total_adjustment + adjustment_amount;
            i = i + 1;
        }
        let status = if total_payment == 0 {
            ClaimStatus::Denied
        } else if total_payment < total_charge {
            ClaimStatus::Partial
        } else {
            ClaimStatus::Paid
        };
        Claim {
            claim_id,
            patient,
            billing_provider,
            rendering_provider,
            service_lines,
            total_charge,
            total_payment,
            total_adjustment,
            patient_responsibility: (total_charge - total_payment) / 2,
            status,
        }
    }

    /// One draw below ten thousand, for control-number generation.
    pub(crate) fn draw_rand4(&mut self) -> (r: u64)
        requires
            old(self).wf(),
        ensures
            final(self).wf(),
            final(self).procedures_spec() == old(self).procedures_spec(),
            final(self).modifiers_spec() == old(self).modifiers_spec(),
            r < 10000,
    {
        rng_below(&mut self.rng, 10000)
    }

    /// Composes a claim dated from today's clock reading.
    pub fn generate_claim(
        &mut self,
        patient: Person,
        billing_provider: Provider,
        rendering_provider: Option<Provider>,
    ) -> (c: Claim)
        requires
            old(self).wf(),
        ensures
            final(self).wf(),
            final(self).procedures_spec() == old(self).procedures_spec(),
            final(self).modifiers_spec() == old(self).modifiers_spec(),
            claim_consistent(c),
            c.patient == patient,
            c.billing_provider == billing_provider,
            c.rendering_provider == rendering_provider,
            c.claim_id@.len() == 11,
            exists|n: int|
                10000000 <= n <= 99999999 && c.claim_id@ == seq!['C', 'L', 'M'] + #[trigger] dec_digits(
                    n as nat,
                ),
            forall|i: int|
                0 <= i < c.service_lines@.len() ==> line_from_tables(
                    #[trigger] c.service_lines@[i],
                    i,
                    old(self).procedures_spec(),
                    old(self).modifiers_spec(),
                ),
            exists|td: int|
                EPOCH_DAY_NUMBER <= td <= MAX_DAY_NUMBER && #[trigger] lines_dated(
                    c.service_lines@,
                    td,
                ),
            all_charges_positive(old(self).procedures_spec()) ==> c.total_charge > 0,
    {
        let today = today_day_number();
        let c = self.generate_claim_on(patient, billing_provider, rendering_provider, today);
        proof {
            assert(lines_dated(c.service_lines@, today as int));
        }
        c
    }
}

} // verus!
