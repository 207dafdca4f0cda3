//! The orchestrating pipeline: population, claim assembly and anomaly
//! injection run once per claim, and the resulting batch is rendered either
//! as a hierarchical interchange document or as JSON records. A document
//! stamp carries the dates, times and epoch second a run is labelled with,
//! so a run under a fixed seed and a fixed stamp is reproducible.

use vstd::prelude::*;
use crate::anomalies::{
    rate_of, Anomaly, AnomalyConfig, AnomalyInjectionResult, AnomalyInjector, AnomalyType,
};
use crate::calendar::{
    civil_from_days, date6_str, date8_str, format_date6, format_date8, valid_ymd, days_from_ce,
    MAX_DAY_NUMBER,
};
use crate::claims::{
    all_charges_positive, claim_consistent, is_default_modifier_list,
    is_default_procedure_table, line_from_tables, lines_dated, Claim, ClaimGenerator,
    ProcedureCode, ServiceLine,
};
use crate::clock::{now_epoch_seconds, today_day_number, EPOCH_DAY_NUMBER};
use crate::config::{Config, OutputFormat};
use crate::envelope::{FunctionalGroup, TransactionSet, X12Interchange};
use crate::json::{json_batch, render_json_results};
use crate::population::{dob_in_window, PopulationGenerator};
use crate::segments::{BprSegment, CasSegment, ClpSegment, DtmSegment, N1Segment, SvcSegment,
    TrnSegment, X12Segment};
use crate::strfmt::{dec_digits, is_dec_digit, u64_to_dec_pad, zero_pad};

verus! {

/// The dates, times and epoch second one run is labelled with.
#[derive(Debug, Clone)]
pub struct DocStamp {
    /// Day number of the run's date (January 1 of year 1 is day 1).
    pub today_days: u32,
    /// The date as `YYYYMMDD`.
    pub date8: String,
    /// The date as `YYMMDD`.
    pub date6: String,
    /// The time as `HHMM`.
    pub time4: String,
    /// Seconds since the Unix epoch.
    pub epoch_secs: u64,
}

impl DocStamp {
    /// The day number lies in the range the calendar converts.
    pub open spec fn wf(self) -> bool {
        EPOCH_DAY_NUMBER <= self.today_days <= MAX_DAY_NUMBER
    }

    /// Builds a stamp from plain values: the day number, the minute of the
    /// day, and the epoch second.
    pub fn from_parts(today_days: u32, minute_of_day: u32, epoch_secs: u64) -> (st: DocStamp)
        requires
            EPOCH_DAY_NUMBER <= today_days <= MAX_DAY_NUMBER,
            minute_of_day < 1440,
        ensures
            st.wf(),
            st.today_days == today_days,
            st.epoch_secs == epoch_secs,
            exists|y: int, m: int, d: int|
                valid_ymd(y, m, d) && #[trigger] days_from_ce(y, m, d) == today_days
                    && st.date8@ == date8_str(y, m, d) && st.date6@ == date6_str(y, m, d),
            st.time4@ == zero_pad(dec_digits((minute_of_day / 60) as nat), 2) + zero_pad(
                dec_digits((minute_of_day % 60) as nat),
                2,
            ),
    {
        let (y, m, d) = civil_from_days(today_days);
        let date8 = format_date8(y, m, d);
        let date6 = format_date6(y, m, d);
        let hour = minute_of_day / 60;
        let minute = minute_of_day % 60;
        let mut time4 = u64_to_dec_pad(hour as u64, 2);
        time4.append(u64_to_dec_pad(minute as u64, 2).as_str());
        DocStamp { today_days, date8, date6, time4, epoch_secs }
    }

    /// Builds a stamp from the clock.
    pub fn now() -> (st: DocStamp)
        ensures
            st.wf(),
            exists|y: int, m: int, d: int|
                valid_ymd(y, m, d) && #[trigger] days_from_ce(y, m, d) == st.today_days
                    && st.date8@ == date8_str(y, m, d) && st.date6@ == date6_str(y, m, d),
    {
        let today = today_day_number();
        let h = crate::clock::clock_hour();
        let mi = crate::clock::clock_minute();
        let secs = now_epoch_seconds();
        DocStamp::from_parts(today, h * 60 + mi, secs)
    }
}

/// A control number: the epoch second modulo one hundred million and a
/// four-digit random value, each zero-padded to eight digits.
pub open spec fn control_number_str(epoch_secs: u64, r: u64) -> Seq<char> {
    zero_pad(dec_digits((epoch_secs % 100000000) as nat), 8) + zero_pad(
        dec_digits((r % 10000) as nat),
        8,
    )
}

/// The service segment a line is encoded as.
pub open spec fn svc_matches_line(seg: X12Segment, l: ServiceLine) -> bool {
    seg matches X12Segment::Svc(v) && v.svc01_procedure_code@ == l.procedure_code@
        && v.svc02_charge_amount == l.charge_amount && v.svc03_paid_amount == l.paid_amount && (
    match (v.svc04_revenue_code, l.revenue_code) {
        (Some(a), Some(b)) => a@ == b@,
        (None, None) => true,
        _ => false,
    }) && v.svc05_units == l.units
}

/// The adjustment segment a line with a positive adjustment is followed by.
pub open spec fn cas_matches_line(seg: X12Segment, l: ServiceLine) -> bool {
    seg matches X12Segment::Cas(v) && v.cas01_group_code@ == "CO"@ && v.cas02_reason_code@
        == "45"@ && v.cas03_amount == l.adjustment_amount && v.cas04_units == l.units
}

/// Number of segments the first `j` lines contribute: one per line, two
/// when the line carries a positive adjustment.
pub open spec fn segs_len_for(lines: Seq<ServiceLine>, j: int) -> int
    decreases j,
{
    if j <= 0 {
        0
    } else {
        segs_len_for(lines, j - 1) + (if lines[j - 1].adjustment_amount > 0 {
            2int
        } else {
            1int
        })
    }
}

/// The first `j` lines are encoded at their positions after the six header
/// segments.
pub open spec fn check_lines_prefix(segs: Seq<X12Segment>, lines: Seq<ServiceLine>, j: int) -> bool
    decreases j,
{
    if j <= 0 {
        true
    } else {
        check_lines_prefix(segs, lines, j - 1) && {
            let k = 6 + segs_len_for(lines, j - 1);
            let l = lines[j - 1];
            &&& k < segs.len()
            &&& svc_matches_line(segs[k], l)
            &&& (l.adjustment_amount > 0 ==> k + 1 < segs.len() && cas_matches_line(
                segs[k + 1],
                l,
            ))
        }
    }
}

/// The six fixed segments a claim's transaction set opens with: payment
/// summary, trace, date, payer name, payee name, claim payment.
pub open spec fn head_matches(segs: Seq<X12Segment>, c: Claim, stamp: DocStamp) -> bool {
    &&& segs.len() >= 6
    &&& (segs[0] matches X12Segment::Bpr(b) && b.bpr02_payment_amount == c.total_payment
        && b.bpr03_credit_debit == 'C' && b.bpr04_payment_method@ == "ACH"@
        && b.bpr16_payment_date@ == stamp.date8@ && b.bpr_issue_date@ == stamp.date8@)
    &&& (segs[1] matches X12Segment::Trn(t) && t.trn02_reference_id@ == c.claim_id@
        && t.trn03_orig_company_id@ == "PAYER123"@)
    &&& (segs[2] matches X12Segment::Dtm(d) && d.dtm01_qualifier@ == "405"@ && d.dtm02_date@
        == stamp.date8@)
    &&& (segs[3] matches X12Segment::N1(n) && n.n101_entity_id@ == "PR"@ && n.n102_name@
        == "PAYER NAME"@ && n.n103_id_qual@ == "PI"@ && n.n104_id@ == "1234567890"@)
    &&& (segs[4] matches X12Segment::N1(n) && n.n101_entity_id@ == "PE"@ && n.n102_name@
        == c.billing_provider.name@ && n.n103_id_qual@ == "XX"@ && n.n104_id@
        == c.billing_provider.npi@)
    &&& (segs[5] matches X12Segment::Clp(p) && p.clp01_claim_id@ == c.claim_id@
        && p.clp02_claim_status@ == "1"@ && p.clp03_charge_amount == c.total_charge
        && p.clp04_paid_amount == c.total_payment && p.clp05_patient_responsibility
        == c.patient_responsibility && p.clp06_claim_type@ == "11"@ && p.clp07_payer_claim_number@
        == "CLM"@ + c.claim_id@)
}

/// The transaction set encodes the claim: six fixed segments, then the
/// service and adjustment segments line by line, with the trailer counting
/// them all.
pub open spec fn transaction_matches_claim(ts: TransactionSet, c: Claim, stamp: DocStamp) -> bool {
    &&& ts.se.se01_segment_count == ts.segments@.len() + 2
    &&& ts.se.se02_transaction_control_number@ == ts.st.st02_control_number@
    &&& ts.segments@.len() == 6 + segs_len_for(c.service_lines@, c.service_lines@.len() as int)
    &&& head_matches(ts.segments@, c, stamp)
    &&& check_lines_prefix(ts.segments@, c.service_lines@, c.service_lines@.len() as int)
}

/// The document encodes the batch: one functional group holding one
/// transaction set per claim, with the counters announcing the true counts.
pub open spec fn doc_matches(
    doc: X12Interchange,
    results: Seq<AnomalyInjectionResult>,
    stamp: DocStamp,
) -> bool {
    &&& doc.functional_groups@.len() == 1
    &&& doc.iea.iea01_number_of_included_functional_groups == 1
    &&& doc.iea.iea02_interchange_control_number@ == doc.isa.isa12_control_number@
    &&& doc.isa.isa06_sender_id@ == "SENDER001"@
    &&& doc.isa.isa08_receiver_id@ == "RECEIVER01"@
    &&& doc.isa.isa09_date@ == stamp.date6@
    &&& doc.isa.isa10_time@ == stamp.time4@
    &&& {
        let g = doc.functional_groups@[0];
        &&& g.ge.ge01_number_of_transaction_sets == results.len()
        &&& g.ge.ge02_group_control_number@ == g.gs.gs06_group_control_number@
        &&& g.gs.gs02_sender_id@ == "SENDER001"@
        &&& g.gs.gs03_receiver_id@ == "RECEIVER01"@
        &&& g.gs.gs04_date@ == stamp.date8@
        &&& g.gs.gs05_time@ == stamp.time4@
        &&& g.transaction_sets@.len() == results.len()
        &&& forall|i: int|
            0 <= i < results.len() ==> transaction_matches_claim(
                #[trigger] g.transaction_sets@[i],
                results[i].claim,
                stamp,
            )
    }
}

/// Line segment counts are never negative.
proof fn lemma_segs_len_nonneg(lines: Seq<ServiceLine>, j: int)
    ensures
        segs_len_for(lines, j) >= 0,
    decreases j,
{
    if j > 0 {
        lemma_segs_len_nonneg(lines, j - 1);
    }
}

/// Appending a segment preserves an already-checked line prefix.
proof fn lemma_check_prefix_push(
    segs: Seq<X12Segment>,
    x: X12Segment,
    lines: Seq<ServiceLine>,
    j: int,
)
    requires
        check_lines_prefix(segs, lines, j),
    ensures
        check_lines_prefix(segs.push(x), lines, j),
    decreases j,
{
    if j > 0 {
        lemma_check_prefix_push(segs, x, lines, j - 1);
        assert(forall|i: int|
            0 <= i < segs.len() ==> #[trigger] segs.push(x)[i] == segs[i]);
        assert(check_lines_prefix(segs, lines, j - 1));
        lemma_segs_len_nonneg(lines, j - 1);
        let k = 6 + segs_len_for(lines, j - 1);
        assert(k < segs.len() && svc_matches_line(segs[k], lines[j - 1]) && (lines[j
            - 1].adjustment_amount > 0 ==> k + 1 < segs.len() && cas_matches_line(
            segs[k + 1],
            lines[j - 1],
        )));
        assert(segs.push(x)[k] == segs[k]);
        assert(svc_matches_line(segs.push(x)[k], lines[j - 1]));
        if lines[j - 1].adjustment_amount > 0 {
            assert(segs.push(x)[k + 1] == segs[k + 1]);
            assert(cas_matches_line(segs.push(x)[k + 1], lines[j - 1]));
        }
        assert(check_lines_prefix(segs.push(x), lines, j));
    }
}


/// Position `(i, j)` of the batch holds a duplicate-claim record.
pub open spec fn dup_at(rs: Seq<AnomalyInjectionResult>, i: int, j: int) -> bool {
    0 <= i < rs.len() && 0 <= j < rs[i].anomalies@.len() && rs[i].anomalies@[j].anomaly_type
        == AnomalyType::DuplicateClaim
}

/// Every duplicate record of the batch names an id, and no id is named by
/// two duplicate records anywhere in the batch.
pub open spec fn batch_duplicates_distinct(rs: Seq<AnomalyInjectionResult>) -> bool {
    &&& forall|i: int, j: int|
        #[trigger] dup_at(rs, i, j) ==> rs[i].anomalies@[j].original_value is Some
    &&& forall|i: int, j: int, k: int, l: int|
        #[trigger] dup_at(rs, i, j) && #[trigger] dup_at(rs, k, l) && !(i == k && j == l) ==> (
        match (rs[i].anomalies@[j].original_value, rs[k].anomalies@[l].original_value) {
            (Some(a), Some(b)) => a@ != b@,
            _ => true,
        })
}

/// The duplicate records of one injection pass: each names an id that was
/// unseen before the pass and is seen after it, and at most one is emitted.
pub open spec fn dup_records_ok(
    anoms: Seq<Anomaly>,
    s0: Set<Seq<char>>,
    s1: Set<Seq<char>>,
) -> bool {
    &&& forall|j: int|
        0 <= j < anoms.len() && (#[trigger] anoms[j]).anomaly_type
            == AnomalyType::DuplicateClaim ==> (match anoms[j].original_value {
            Some(v) => !s0.contains(v@) && s1.contains(v@),
            None => false,
        })
    &&& forall|j: int, l: int|
        0 <= j < anoms.len() && 0 <= l < anoms.len() && (#[trigger] anoms[j]).anomaly_type
            == AnomalyType::DuplicateClaim && (#[trigger] anoms[l]).anomaly_type
            == AnomalyType::DuplicateClaim ==> j == l
}

/// What one batch entry looks like when no anomaly was injected: a pristine
/// claim of the day numbered `today`, drawn from the given tables, with an
/// empty record list.
pub open spec fn pristine_result_ok(
    r: AnomalyInjectionResult,
    today: int,
    procedures: Seq<ProcedureCode>,
    modifiers: Seq<String>,
) -> bool {
    &&& claim_consistent(r.claim)
    &&& r.anomalies@.len() == 0
    &&& r.claim.claim_id@.len() == 11
    &&& exists|n: int|
        10000000 <= n <= 99999999 && r.claim.claim_id@ == seq!['C', 'L', 'M']
            + #[trigger] dec_digits(n as nat)
    &&& (r.claim.patient.gender@ == seq!['M'] || r.claim.patient.gender@ == seq!['F'])
    &&& exists|dob: int| #[trigger] dob_in_window(r.claim.patient.date_of_birth@, today, dob)
    &&& r.claim.billing_provider.npi@.len() == 10
    &&& forall|k: int| 0 <= k < 10 ==> is_dec_digit(#[trigger] r.claim.billing_provider.npi@[k])
    &&& forall|i: int|
        0 <= i < r.claim.service_lines@.len() ==> line_from_tables(
            #[trigger] r.claim.service_lines@[i],
            i,
            procedures,
            modifiers,
        )
    &&& lines_dated(r.claim.service_lines@, today)
}

/// What holds of a generated batch: with a zero base rate every entry is
/// pristine, and the duplicate records across the whole batch name distinct
/// ids.
pub open spec fn batch_ok(
    rs: Seq<AnomalyInjectionResult>,
    base: u64,
    today: int,
    procedures: Seq<ProcedureCode>,
    modifiers: Seq<String>,
) -> bool {
    &&& (base == 0 ==> forall|i: int|
        0 <= i < rs.len() ==> pristine_result_ok(#[trigger] rs[i], today, procedures, modifiers))
    &&& batch_duplicates_distinct(rs)
}

/// The generation pipeline.
pub struct Generator {
    config: Config,
    pop_generator: PopulationGenerator,
    claim_generator: ClaimGenerator,
    anomaly_injector: AnomalyInjector,
}

impl Generator {
    /// The options this pipeline runs under.
    pub closed spec fn config_spec(self) -> Config {
        self.config
    }

    /// The injector's configured base rate.
    pub closed spec fn base_rate_spec(self) -> u64 {
        self.anomaly_injector.config_spec().base_rate
    }

    /// The injector's per-kind probability table.
    pub closed spec fn type_rates_spec(self) -> Seq<(AnomalyType, u64)> {
        self.anomaly_injector.config_spec().type_rates@
    }

    /// The claim ids the injector has seen.
    pub closed spec fn seen_spec(self) -> Set<Seq<char>> {
        self.anomaly_injector.seen_set()
    }

    /// The procedure table claims sample from.
    pub closed spec fn procedures_spec(self) -> Seq<ProcedureCode> {
        self.claim_generator.procedures_spec()
    }

    /// The modifier list claims sample from.
    pub closed spec fn modifiers_spec(self) -> Seq<String> {
        self.claim_generator.modifiers_spec()
    }

    /// The sub-generators are usable.
    pub closed spec fn wf(self) -> bool {
        self.pop_generator.wf() && self.claim_generator.wf()
    }

    /// Builds a pipeline: every sub-generator is seeded from the
    /// configuration's seed, and the injector's base rate is the
    /// configuration's anomaly rate over an otherwise default anomaly
    /// configuration. The population and claim generators carry the
    /// built-in default tables.
    pub fn new(config: Config) -> (g: Generator)
        ensures
            g.wf(),
            g.config_spec() == config,
            g.base_rate_spec() == config.anomaly_rate,
            is_default_procedure_table(g.procedures_spec()),
            is_default_modifier_list(g.modifiers_spec()),
            all_charges_positive(g.procedures_spec()),
            g.seen_spec() =~= Set::<Seq<char>>::empty(),
            rate_of(g.type_rates_spec(), AnomalyType::MissingField) == 300000,
            rate_of(g.type_rates_spec(), AnomalyType::InvalidValue) == 200000,
            rate_of(g.type_rates_spec(), AnomalyType::InvalidDateFormat) == 100000,
            rate_of(g.type_rates_spec(), AnomalyType::DuplicateClaim) == 50000,
            rate_of(g.type_rates_spec(), AnomalyType::InvalidProcedureCode) == 150000,
            rate_of(g.type_rates_spec(), AnomalyType::InvalidModifierCombination) == 100000,
            rate_of(g.type_rates_spec(), AnomalyType::AgeGenderMismatch) == 50000,
            rate_of(g.type_rates_spec(), AnomalyType::InvalidProvider) == 100000,
            rate_of(g.type_rates_spec(), AnomalyType::InvalidPatientInfo) == 200000,
            rate_of(g.type_rates_spec(), AnomalyType::MissingDocumentation) == 100000,
    {
        let seed = config.seed;
        let pop_generator = PopulationGenerator::new(seed);
        let claim_generator = ClaimGenerator::new(seed);
        let mut anomaly_config = AnomalyConfig::default();
        anomaly_config.base_rate = config.anomaly_rate;
        let anomaly_injector = AnomalyInjector::new(anomaly_config, seed);
        Generator { config, pop_generator, claim_generator, anomaly_injector }
    }

    /// Builds a pipeline over outside-sourced vocabularies and tables, for
    /// callers that load reference data themselves.
    pub fn with_sources(
        config: Config,
        vocab: crate::vocab::Vocabularies,
        procedure_codes: Vec<crate::claims::ProcedureCode>,
        modifiers: Vec<String>,
        place_of_service_codes: Vec<crate::claims::PosEntry>,
    ) -> (g: Generator)
        requires
            vocab.wf(),
        ensures
            g.wf(),
            g.config_spec() == config,
            g.base_rate_spec() == config.anomaly_rate,
            g.seen_spec() =~= Set::<Seq<char>>::empty(),
            rate_of(g.type_rates_spec(), AnomalyType::MissingField) == 300000,
            rate_of(g.type_rates_spec(), AnomalyType::InvalidValue) == 200000,
            rate_of(g.type_rates_spec(), AnomalyType::InvalidDateFormat) == 100000,
            rate_of(g.type_rates_spec(), AnomalyType::DuplicateClaim) == 50000,
            rate_of(g.type_rates_spec(), AnomalyType::InvalidProcedureCode) == 150000,
            rate_of(g.type_rates_spec(), AnomalyType::InvalidModifierCombination) == 100000,
            rate_of(g.type_rates_spec(), AnomalyType::AgeGenderMismatch) == 50000,
            rate_of(g.type_rates_spec(), AnomalyType::InvalidProvider) == 100000,
            rate_of(g.type_rates_spec(), AnomalyType::InvalidPatientInfo) == 200000,
            rate_of(g.type_rates_spec(), AnomalyType::MissingDocumentation) == 100000,
    {
        let seed = config.seed;
        let pop_generator = PopulationGenerator::with_vocabularies(seed, vocab);
        let claim_generator = ClaimGenerator::with_tables(
            seed,
            procedure_codes,
            modifiers,
            place_of_service_codes,
        );
        let mut anomaly_config = AnomalyConfig::default();
        anomaly_config.base_rate = config.anomaly_rate;
        let anomaly_injector = AnomalyInjector::new(anomaly_config, seed);
        Generator { config, pop_generator, claim_generator, anomaly_injector }
    }

    /// Generates one claim dated on the given day and passes it through the
    /// anomaly injector. Draw order: patient, billing provider, a coin for
    /// the rendering provider (and the provider itself when it comes up),
    /// the claim, the injection trials.
    pub fn generate_single_claim_on(&mut self, today: u32) -> (r: AnomalyInjectionResult)
        requires
            old(self).wf(),
            EPOCH_DAY_NUMBER <= today <= MAX_DAY_NUMBER,
        ensures
            final(self).wf(),
            final(self).config_spec() == old(self).config_spec(),
            final(self).base_rate_spec() == old(self).base_rate_spec(),
            final(self).type_rates_spec() == old(self).type_rates_spec(),
            final(self).procedures_spec() == old(self).procedures_spec(),
            final(self).modifiers_spec() == old(self).modifiers_spec(),
            old(self).base_rate_spec() == 0 ==> pristine_result_ok(
                r,
                today as int,
                old(self).procedures_spec(),
                old(self).modifiers_spec(),
            ),
            r.claim.service_lines@.len() <= 5,
            forall|x: Seq<char>|
                old(self).seen_spec().contains(x) ==> final(self).seen_spec().contains(x),
            dup_records_ok(r.anomalies@, old(self).seen_spec(), final(self).seen_spec()),
    {
        let patient = self.pop_generator.generate_person_on(today);
        let billing_provider = self.pop_generator.generate_provider();
        let rendering_provider = if self.pop_generator.coin_flip() {
            Some(self.pop_generator.generate_provider())
        } else {
            None
        };
        let claim = self.claim_generator.generate_claim_on(
            patient,
            billing_provider,
            rendering_provider,
            today,
        );
        let ghost c_pre = claim;
        let ghost seen_pre = self.anomaly_injector.seen_set();
        let ghost cfg_pre = self.anomaly_injector.config_spec();
        let r = self.anomaly_injector.inject_anomalies(claim);
        proof {
            if !(r.claim == c_pre && r.anomalies@ =~= Seq::<crate::anomalies::Anomaly>::empty()
                && self.anomaly_injector.seen_set() == seen_pre) {
                let (fires, gclaims, gseens, gouts) = choose|
                    fires: Seq<bool>,
                    gclaims: Seq<Claim>,
                    gseens: Seq<Set<Seq<char>>>,
                    gouts: Seq<Seq<crate::anomalies::Anomaly>>,
                |
                    {
                        &&& #[trigger] crate::anomalies::trace_ok(
                            c_pre,
                            seen_pre,
                            fires,
                            gclaims,
                            gseens,
                            gouts,
                            r.claim,
                            self.anomaly_injector.seen_set(),
                            r.anomalies@,
                        )
                        &&& forall|k: int|
                            0 <= k < 10 ==> ((crate::anomalies::rate_of(
                                cfg_pre.type_rates@,
                                crate::anomalies::types_order()[k],
                            ) == 0 ==> !(#[trigger] fires[k])) && (crate::anomalies::rate_of(
                                cfg_pre.type_rates@,
                                crate::anomalies::types_order()[k],
                            ) >= crate::rng::PPM_SCALE ==> fires[k]))
                    };
                crate::anomalies::lemma_trace_preserves_line_count(
                    c_pre,
                    seen_pre,
                    fires,
                    gclaims,
                    gseens,
                    gouts,
                    r.claim,
                    self.anomaly_injector.seen_set(),
                    r.anomalies@,
                );
                crate::anomalies::lemma_trace_duplicate_props(
                    c_pre,
                    seen_pre,
                    fires,
                    gclaims,
                    gseens,
                    gouts,
                    r.claim,
                    self.anomaly_injector.seen_set(),
                    r.anomalies@,
                );
                assert forall|x: Seq<char>|
                    seen_pre.contains(x) implies self.anomaly_injector.seen_set().contains(
                    x,
                ) by {}
            }
            if self.anomaly_injector.config_spec().base_rate == 0 {
                assert(r.claim == c_pre);
                assert(exists|dob: int| #[trigger] dob_in_window(
                    r.claim.patient.date_of_birth@,
                    today as int,
                    dob,
                )) by {
                    let dob = choose|dob: int|
                        today - (90 * 365) <= dob <= today - (18 * 365)
                            && #[trigger] crate::calendar::is_date_string_for(
                            patient.date_of_birth@,
                            dob,
                        );
                    assert(dob_in_window(r.claim.patient.date_of_birth@, today as int, dob));
                }
                assert(lines_dated(r.claim.service_lines@, today as int));
                assert(pristine_result_ok(
                    r,
                    today as int,
                    old(self).procedures_spec(),
                    old(self).modifiers_spec(),
                ));
            }
        }
        r
    }

    /// Generates the configured number of claims, dated on the given day.
    /// With a zero base rate every entry is pristine, and across the whole
    /// batch no claim id is flagged as a duplicate twice.
    pub fn generate_batch(&mut self, today: u32) -> (rs: Vec<AnomalyInjectionResult>)
        requires
            old(self).wf(),
            EPOCH_DAY_NUMBER <= today <= MAX_DAY_NUMBER,
        ensures
            final(self).wf(),
            final(self).config_spec() == old(self).config_spec(),
            final(self).base_rate_spec() == old(self).base_rate_spec(),
            final(self).procedures_spec() == old(self).procedures_spec(),
            final(self).modifiers_spec() == old(self).modifiers_spec(),
            rs@.len() == old(self).config_spec().claim_count,
            batch_ok(
                rs@,
                old(self).base_rate_spec(),
                today as int,
                old(self).procedures_spec(),
                old(self).modifiers_spec(),
            ),
            forall|i: int| 0 <= i < rs@.len() ==> (#[trigger] rs@[i]).claim.service_lines@.len()
                <= 5,
    {
        let count = self.config.claim_count;
        let mut rs: Vec<AnomalyInjectionResult> = Vec::new();
        let mut i: usize = 0;
        while i < count
            invariant
                self.wf(),
                self.config_spec() == old(self).config_spec(),
                self.base_rate_spec() == old(self).base_rate_spec(),
                self.type_rates_spec() == old(self).type_rates_spec(),
                self.procedures_spec() == old(self).procedures_spec(),
                self.modifiers_spec() == old(self).modifiers_spec(),
                EPOCH_DAY_NUMBER <= today <= MAX_DAY_NUMBER,
                count == old(self).config_spec().claim_count,
                i <= count,
                rs@.len() == i,
                old(self).base_rate_spec() == 0 ==> forall|j: int|
                    0 <= j < rs@.len() ==> pristine_result_ok(
                        #[trigger] rs@[j],
                        today as int,
                        old(self).procedures_spec(),
                        old(self).modifiers_spec(),
                    ),
                forall|j: int|
                    0 <= j < rs@.len() ==> (#[trigger] rs@[j]).claim.service_lines@.len() <= 5,
                batch_duplicates_distinct(rs@),
                forall|a: int, b: int|
                    #[trigger] dup_at(rs@, a, b) ==> (match rs@[a].anomalies@[b].original_value {
                        Some(v) => self.seen_spec().contains(v@),
                        None => false,
                    }),
            decreases count - i,
        {
            let ghost rs0 = rs@;
            let ghost seen_b = self.seen_spec();
            let r = self.generate_single_claim_on(today);
            rs.push(r);
            proof {
                assert(forall|a: int| 0 <= a < rs0.len() ==> rs@[a] == rs0[a]);
                assert(rs@[rs@.len() - 1] == r);
                assert forall|a: int, b: int| #[trigger] dup_at(rs@, a, b) implies (
                match rs@[a].anomalies@[b].original_value {
                    Some(v) => self.seen_spec().contains(v@),
                    None => false,
                }) by {
                    if a < rs0.len() {
                        assert(dup_at(rs0, a, b));
                    }
                }
                assert forall|a: int, b: int, c: int, d: int|
                    #[trigger] dup_at(rs@, a, b) && #[trigger] dup_at(rs@, c, d) && !(a == c && b
                        == d) implies (match (
                    rs@[a].anomalies@[b].original_value,
                    rs@[c].anomalies@[d].original_value,
                ) {
                    (Some(x), Some(y)) => x@ != y@,
                    _ => true,
                }) by {
                    let last = rs@.len() - 1;
                    if a < rs0.len() && c < rs0.len() {
                        assert(dup_at(rs0, a, b) && dup_at(rs0, c, d));
                    } else if a < rs0.len() && c == last {
                        assert(dup_at(rs0, a, b));
                    } else if a == last && c < rs0.len() {
                        assert(dup_at(rs0, c, d));
                    }
                }
            }
            i = i + 1;
        }
        rs
    }

    /// Generates a control number from the stamp's epoch second and a fresh
    /// four-digit draw.
    fn generate_control_number(&mut self, epoch_secs: u64) -> (s: String)
        requires
            old(self).wf(),
        ensures
            final(self).wf(),
            final(self).config_spec() == old(self).config_spec(),
            final(self).base_rate_spec() == old(self).base_rate_spec(),
            exists|r: u64| s@ == #[trigger] control_number_str(epoch_secs, r),
    {
        let r = self.claim_generator.draw_rand4();
        let mut s = u64_to_dec_pad(epoch_secs % 100000000, 8);
        s.append(u64_to_dec_pad(r % 10000, 8).as_str());
        proof {
            assert(s@ == control_number_str(epoch_secs, r));
        }
        s
    }

    /// Assembles the transaction set for one claim: the six fixed segments,
    /// then one service segment per line, followed by an adjustment segment
    /// when the line's adjustment is positive.
    fn create_835_transaction(&mut self, claim: &Claim, stamp: &DocStamp) -> (ts: TransactionSet)
        requires
            old(self).wf(),
            claim.service_lines@.len() <= 1000,
        ensures
            final(self).wf(),
            final(self).config_spec() == old(self).config_spec(),
            final(self).base_rate_spec() == old(self).base_rate_spec(),
            transaction_matches_claim(ts, *claim, *stamp),
    {
        let control_number = self.generate_control_number(stamp.epoch_secs);
        let mut transaction = TransactionSet::new(control_number.as_str());
        let bpr = BprSegment {
            bpr02_payment_amount: claim.total_payment,
            bpr03_credit_debit: 'C',
            bpr04_payment_method: String::from_str("ACH"),
            bpr16_payment_date: stamp.date8.clone(),
            bpr_issue_date: stamp.date8.clone(),
        };
        transaction.add_segment(X12Segment::Bpr(bpr));
        let trn = TrnSegment {
            trn02_reference_id: claim.claim_id.clone(),
            trn03_orig_company_id: String::from_str("PAYER123"),
        };
        transaction.add_segment(X12Segment::Trn(trn));
        let dtm = DtmSegment {
            dtm01_qualifier: String::from_str("405"),
            dtm02_date: stamp.date8.clone(),
        };
        transaction.add_segment(X12Segment::Dtm(dtm));
        let n1_payer = N1Segment {
            n101_entity_id: String::from_str("PR"),
            n102_name: String::from_str("PAYER NAME"),
            n103_id_qual: String::from_str("PI"),
            n104_id: String::from_str("1234567890"),
        };
        transaction.add_segment(X12Segment::N1(n1_payer));
        let n1_payee = N1Segment {
            n101_entity_id: String::from_str("PE"),
            n102_name: claim.billing_provider.name.clone(),
            n103_id_qual: String::from_str("XX"),
            n104_id: claim.billing_provider.npi.clone(),
        };
        transaction.add_segment(X12Segment::N1(n1_payee));
        let mut payer_claim_number = String::from_str("CLM");
        payer_claim_number.append(claim.claim_id.as_str());
        let clp = ClpSegment {
            clp01_claim_id: claim.claim_id.clone(),
            clp02_claim_status: String::from_str("1"),
            clp03_charge_amount: claim.total_charge,
            clp04_paid_amount: claim.total_payment,
            clp05_patient_responsibility: claim.patient_responsibility,
            clp06_claim_type: String::from_str("11"),
            clp07_payer_claim_number: payer_claim_number,
        };
        transaction.add_segment(X12Segment::Clp(clp));
        proof {
            assert(head_matches(transaction.segments@, *claim, *stamp));
        }
        let mut j: usize = 0;
        while j < claim.service_lines.len()
            invariant
                j <= claim.service_lines@.len(),
                claim.service_lines@.len() <= 1000,
                transaction.segments@.len() == 6 + segs_len_for(
                    claim.service_lines@,
                    j as int,
                ),
                transaction.se.se01_segment_count == transaction.segments@.len() + 2,
                transaction.se.se02_transaction_control_number@
                    == transaction.st.st02_control_number@,
                head_matches(transaction.segments@, *claim, *stamp),
                check_lines_prefix(transaction.segments@, claim.service_lines@, j as int),
                segs_len_for(claim.service_lines@, j as int) <= 2 * j,
            decreases claim.service_lines@.len() - j,
        {
            let line = &claim.service_lines[j];
            let revenue_code = match &line.revenue_code {
                Some(r) => Some(r.clone()),
                None => None,
            };
            let svc = SvcSegment {
                svc01_procedure_code: line.procedure_code.clone(),
                svc02_charge_amount: line.charge_amount,
                svc03_paid_amount: line.paid_amount,
                svc04_revenue_code: revenue_code,
                svc05_units: line.units,
            };
            let ghost segs0 = transaction.segments@;
            proof {
                lemma_check_prefix_push(
                    segs0,
                    X12Segment::Svc(svc),
                    claim.service_lines@,
                    j as int,
                );
            }
            transaction.add_segment(X12Segment::Svc(svc));
            if line.adjustment_amount > 0 {
                let cas = CasSegment {
                    cas01_group_code: String::from_str("CO"),
                    cas02_reason_code: String::from_str("45"),
                    cas03_amount: line.adjustment_amount,
                    cas04_units: line.units,
                };
                let ghost segs1 = transaction.segments@;
                proof {
                    lemma_check_prefix_push(
                        segs1,
                        X12Segment::Cas(cas),
                        claim.service_lines@,
                        j as int,
                    );
                }
                transaction.add_segment(X12Segment::Cas(cas));
            }
            j = j + 1;
        }
        transaction
    }

    /// Renders the batch as one interchange document: a single functional
    /// group holding one transaction set per claim.
    pub fn render_x12(&mut self, results: &Vec<AnomalyInjectionResult>, stamp: &DocStamp) -> (r:
        String)
        requires
            old(self).wf(),
            results@.len() <= 100000,
            forall|i: int|
                0 <= i < results@.len() ==> (#[trigger] results@[i]).claim.service_lines@.len()
                    <= 1000,
        ensures
            final(self).wf(),
            final(self).config_spec() == old(self).config_spec(),
            final(self).base_rate_spec() == old(self).base_rate_spec(),
            exists|doc: X12Interchange|
                #[trigger] doc_matches(doc, results@, *stamp) && r@ == doc.render_spec(),
    {
        let control_number = self.generate_control_number(stamp.epoch_secs);
        let mut interchange = X12Interchange::new(
            "SENDER001",
            "RECEIVER01",
            control_number.as_str(),
            stamp.date6.as_str(),
            stamp.time4.as_str(),
        );
        let mut group = FunctionalGroup::new(
            "SENDER001",
            "RECEIVER01",
            control_number.as_str(),
            stamp.date8.as_str(),
            stamp.time4.as_str(),
        );
        let mut i: usize = 0;
        while i < results.len()
            invariant
                self.wf(),
                self.config_spec() == old(self).config_spec(),
                self.base_rate_spec() == old(self).base_rate_spec(),
                results@.len() <= 100000,
                forall|k: int|
                    0 <= k < results@.len() ==> (
                    #[trigger] results@[k]).claim.service_lines@.len() <= 1000,
                i <= results@.len(),
                group.transaction_sets@.len() == i,
                group.ge.ge01_number_of_transaction_sets == i,
                group.ge.ge02_group_control_number@ == group.gs.gs06_group_control_number@,
                group.gs.gs02_sender_id@ == "SENDER001"@,
                group.gs.gs03_receiver_id@ == "RECEIVER01"@,
                group.gs.gs04_date@ == stamp.date8@,
                group.gs.gs05_time@ == stamp.time4@,
                forall|k: int|
                    0 <= k < i ==> transaction_matches_claim(
                        #[trigger] group.transaction_sets@[k],
                        results@[k].claim,
                        *stamp,
                    ),
            decreases results@.len() - i,
        {
            let transaction = self.create_835_transaction(&results[i].claim, stamp);
            group.add_transaction_set(transaction);
            i = i + 1;
        }
        interchange.add_functional_group(group);
        let rendered = interchange.render();
        proof {
            assert(doc_matches(interchange, results@, *stamp));
        }
        rendered
    }

    /// Renders the batch as JSON records, compact or indented.
    pub fn render_json(&self, results: &Vec<AnomalyInjectionResult>, pretty: bool) -> (r: String)
        ensures
            r@ == json_batch(results@, pretty),
    {
        render_json_results(results, pretty)
    }

    /// Runs one whole generation: a batch dated and labelled by the stamp,
    /// rendered in the configured output format.
    pub fn generate_output(&mut self, stamp: &DocStamp) -> (r: String)
        requires
            old(self).wf(),
            stamp.wf(),
            old(self).config_spec().claim_count <= 100000,
        ensures
            final(self).wf(),
            final(self).config_spec() == old(self).config_spec(),
            (match old(self).config_spec().output_format {
                OutputFormat::X12 => exists|
                    rs: Seq<AnomalyInjectionResult>,
                    doc: X12Interchange,
                |
                    rs.len() == old(self).config_spec().claim_count && batch_ok(
                        rs,
                        old(self).base_rate_spec(),
                        stamp.today_days as int,
                        old(self).procedures_spec(),
                        old(self).modifiers_spec(),
                    ) && #[trigger] doc_matches(doc, rs, *stamp) && r@ == doc.render_spec(),
                OutputFormat::Json => exists|rs: Seq<AnomalyInjectionResult>|
                    rs.len() == old(self).config_spec().claim_count && #[trigger] batch_ok(
                        rs,
                        old(self).base_rate_spec(),
                        stamp.today_days as int,
                        old(self).procedures_spec(),
                        old(self).modifiers_spec(),
                    ) && r@ == json_batch(rs, false),
                OutputFormat::JsonPretty => exists|rs: Seq<AnomalyInjectionResult>|
                    rs.len() == old(self).config_spec().claim_count && #[trigger] batch_ok(
                        rs,
                        old(self).base_rate_spec(),
                        stamp.today_days as int,
                        old(self).procedures_spec(),
                        old(self).modifiers_spec(),
                    ) && r@ == json_batch(rs, true),
            }),
    {
        let results = self.generate_batch(stamp.today_days);
        proof {
            assert(forall|i: int|
                0 <= i < results@.len() ==> (#[trigger] results@[i]).claim.service_lines@.len()
                    <= 1000);
        }
        let format = self.config.output_format;
        match format {
            OutputFormat::X12 => self.render_x12(&results, stamp),
            OutputFormat::Json => self.render_json(&results, false),
            OutputFormat::JsonPretty => self.render_json(&results, true),
        }
    }
}

} // verus!
