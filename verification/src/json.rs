//! A verified JSON rendering of claim-with-anomalies records, compact or
//! indented (two spaces per level, in the style of common pretty printers).
//! String values escape the quote, backslash and the common control
//! characters; other characters pass through unchanged. Every rendering spec
//! takes the text built so far and returns it extended, so the specification
//! mirrors how the emitter accumulates its output.

use vstd::prelude::*;
use crate::anomalies::{Anomaly, AnomalyInjectionResult, AnomalyType};
use crate::claims::{Claim, ClaimStatus, ServiceLine};
use crate::population::{Address, Person, Provider};
use crate::strfmt::{dec_digits, push_char, u64_to_dec};

verus! {

/// `n` space characters.
#[verifier::opaque]
pub open spec fn spaces(n: nat) -> Seq<char>
    decreases n,
{
    if n == 0 {
        Seq::<char>::empty()
    } else {
        spaces((n - 1) as nat) + seq![' ']
    }
}

/// A line break followed by `ind` spaces when pretty, nothing when compact.
#[verifier::opaque]
pub open spec fn nl_ind(p: bool, ind: nat) -> Seq<char> {
    if p {
        seq!['\n'] + spaces(ind)
    } else {
        Seq::<char>::empty()
    }
}

/// The escape of one character inside a JSON string.
#[verifier::opaque]
pub open spec fn esc_char(c: char) -> Seq<char> {
    if c == '"' {
        seq!['\\', '"']
    } else if c == '\\' {
        seq!['\\', '\\']
    } else if c == '\n' {
        seq!['\\', 'n']
    } else if c == '\r' {
        seq!['\\', 'r']
    } else if c == '\t' {
        seq!['\\', 't']
    } else {
        seq![c]
    }
}

/// The escape of a whole string body.
#[verifier::opaque]
pub open spec fn esc_str(s: Seq<char>) -> Seq<char>
    decreases s.len(),
{
    if s.len() == 0 {
        Seq::<char>::empty()
    } else {
        esc_str(s.drop_last()) + esc_char(s.last())
    }
}

/// A JSON string value.
#[verifier::opaque]
pub open spec fn json_string(s: Seq<char>) -> Seq<char> {
    seq!['"'] + esc_str(s) + seq!['"']
}

/// A JSON string value or `null`.
#[verifier::opaque]
pub open spec fn json_opt_string(o: Option<String>) -> Seq<char> {
    match o {
        None => "null"@,
        Some(s) => json_string(s@),
    }
}

/// A field name with its separating colon (and a space when pretty).
#[verifier::opaque]
pub open spec fn fld(name: Seq<char>, p: bool) -> Seq<char> {
    seq!['"'] + name + seq!['"', ':'] + (if p {
        seq![' ']
    } else {
        Seq::<char>::empty()
    })
}

/// The name of a claim status.
pub open spec fn status_str(st: ClaimStatus) -> Seq<char> {
    match st {
        ClaimStatus::Paid => "Paid"@,
        ClaimStatus::Denied => "Denied"@,
        ClaimStatus::Partial => "Partial"@,
        ClaimStatus::Pending => "Pending"@,
    }
}

/// The name of an anomaly kind.
pub open spec fn anomaly_type_str(t: AnomalyType) -> Seq<char> {
    match t {
        AnomalyType::MissingField => "MissingField"@,
        AnomalyType::InvalidValue => "InvalidValue"@,
        AnomalyType::InvalidDateFormat => "InvalidDateFormat"@,
        AnomalyType::DuplicateClaim => "DuplicateClaim"@,
        AnomalyType::InvalidProcedureCode => "InvalidProcedureCode"@,
        AnomalyType::InvalidModifierCombination => "InvalidModifierCombination"@,
        AnomalyType::AgeGenderMismatch => "AgeGenderMismatch"@,
        AnomalyType::InvalidProvider => "InvalidProvider"@,
        AnomalyType::InvalidPatientInfo => "InvalidPatientInfo"@,
        AnomalyType::MissingDocumentation => "MissingDocumentation"@,
    }
}

/// The text so far, extended with the JSON object for an address.
pub open spec fn json_address_after(prefix: Seq<char>, a: Address, p: bool, ind: nat) -> Seq<
    char,
> {
    prefix + seq!['{'] + nl_ind(p, ind + 2) + fld("line1"@, p) + json_string(a.line1@)
        + seq![','] + nl_ind(p, ind + 2) + fld("line2"@, p) + json_opt_string(a.line2)
        + seq![','] + nl_ind(p, ind + 2) + fld("city"@, p) + json_string(a.city@) + seq![',']
        + nl_ind(p, ind + 2) + fld("state"@, p) + json_string(a.state@) + seq![','] + nl_ind(
        p,
        ind + 2,
    ) + fld("zip_code"@, p) + json_string(a.zip_code@) + nl_ind(p, ind) + seq!['}']
}

/// String array items from position `i` on, each extending the text so far.
pub open spec fn str_items_from(
    prefix: Seq<char>,
    items: Seq<String>,
    p: bool,
    ind: nat,
    i: int,
) -> Seq<char>
    decreases items.len() - i,
{
    if i < 0 || i >= items.len() {
        prefix
    } else {
        str_items_from(
            prefix + seq![','] + nl_ind(p, ind) + json_string(items[i]@),
            items,
            p,
            ind,
            i + 1,
        )
    }
}

/// The text so far, extended with a JSON array of strings.
pub open spec fn json_string_array_after(
    prefix: Seq<char>,
    items: Seq<String>,
    p: bool,
    ind: nat,
) -> Seq<char> {
    if items.len() == 0 {
        prefix + "[]"@
    } else {
        str_items_from(
            prefix + seq!['['] + nl_ind(p, ind + 2) + json_string(items[0]@),
            items,
            p,
            ind + 2,
            1,
        ) + nl_ind(p, ind) + seq![']']
    }
}

/// The text so far, extended with the JSON object for a person.
pub open spec fn json_person_after(prefix: Seq<char>, q: Person, p: bool, ind: nat) -> Seq<
    char,
> {
    json_address_after(
        prefix + seq!['{'] + nl_ind(p, ind + 2) + fld("id"@, p) + json_string(q.id@) + seq![',']
            + nl_ind(p, ind + 2) + fld("first_name"@, p) + json_string(q.first_name@)
            + seq![','] + nl_ind(p, ind + 2) + fld("last_name"@, p) + json_string(q.last_name@)
            + seq![','] + nl_ind(p, ind + 2) + fld("date_of_birth"@, p) + json_string(
            q.date_of_birth@,
        ) + seq![','] + nl_ind(p, ind + 2) + fld("gender"@, p) + json_string(q.gender@)
            + seq![','] + nl_ind(p, ind + 2) + fld("address"@, p),
        q.address,
        p,
        (ind + 2) as nat,
    ) + nl_ind(p, ind) + seq!['}']
}

/// The text so far, extended with the JSON object for a provider.
pub open spec fn json_provider_after(prefix: Seq<char>, q: Provider, p: bool, ind: nat) -> Seq<
    char,
> {
    json_string_array_after(
        json_address_after(
            prefix + seq!['{'] + nl_ind(p, ind + 2) + fld("npi"@, p) + json_string(q.npi@)
                + seq![','] + nl_ind(p, ind + 2) + fld("provider_type"@, p) + json_string(
                q.provider_type@,
            ) + seq![','] + nl_ind(p, ind + 2) + fld("name"@, p) + json_string(q.name@)
                + seq![','] + nl_ind(p, ind + 2) + fld("address"@, p),
            q.address,
            p,
            (ind + 2) as nat,
        ) + seq![','] + nl_ind(p, ind + 2) + fld("taxonomy_codes"@, p),
        q.taxonomy_codes@,
        p,
        (ind + 2) as nat,
    ) + nl_ind(p, ind) + seq!['}']
}

/// The text so far, extended with an optional provider (or `null`).
pub open spec fn json_opt_provider_after(
    prefix: Seq<char>,
    o: Option<Provider>,
    p: bool,
    ind: nat,
) -> Seq<char> {
    match o {
        None => prefix + "null"@,
        Some(q) => json_provider_after(prefix, q, p, ind),
    }
}

/// The text so far, extended with the JSON object for a service line.
pub open spec fn json_line_after(prefix: Seq<char>, l: ServiceLine, p: bool, ind: nat) -> Seq<
    char,
> {
    json_string_array_after(
        prefix + seq!['{'] + nl_ind(p, ind + 2) + fld("line_number"@, p) + dec_digits(
            l.line_number as nat,
        ) + seq![','] + nl_ind(p, ind + 2) + fld("procedure_code"@, p) + json_string(
            l.procedure_code@,
        ) + seq![','] + nl_ind(p, ind + 2) + fld("procedure_description"@, p) + json_string(
            l.procedure_description@,
        ) + seq![','] + nl_ind(p, ind + 2) + fld("service_date"@, p) + json_string(
            l.service_date@,
        ) + seq![','] + nl_ind(p, ind + 2) + fld("charge_amount"@, p) + dec_digits(
            l.charge_amount as nat,
        ) + seq![','] + nl_ind(p, ind + 2) + fld("payment_amount"@, p) + dec_digits(
            l.payment_amount as nat,
        ) + seq![','] + nl_ind(p, ind + 2) + fld("paid_amount"@, p) + dec_digits(
            l.paid_amount as nat,
        ) + seq![','] + nl_ind(p, ind + 2) + fld("adjustment_amount"@, p) + dec_digits(
            l.adjustment_amount as nat,
        ) + seq![','] + nl_ind(p, ind + 2) + fld("units"@, p) + dec_digits(l.units as nat)
            + seq![','] + nl_ind(p, ind + 2) + fld("place_of_service"@, p) + json_string(
            l.place_of_service@,
        ) + seq![','] + nl_ind(p, ind + 2) + fld("revenue_code"@, p) + json_opt_string(
            l.revenue_code,
        ) + seq![','] + nl_ind(p, ind + 2) + fld("modifiers"@, p),
        l.modifiers@,
        p,
        (ind + 2) as nat,
    ) + nl_ind(p, ind) + seq!['}']
}

/// Service-line array items from position `i` on.
pub open spec fn line_items_from(
    prefix: Seq<char>,
    lines: Seq<ServiceLine>,
    p: bool,
    ind: nat,
    i: int,
) -> Seq<char>
    decreases lines.len() - i,
{
    if i < 0 || i >= lines.len() {
        prefix
    } else {
        line_items_from(
            json_line_after(prefix + seq![','] + nl_ind(p, ind), lines[i], p, ind),
            lines,
            p,
            ind,
            i + 1,
        )
    }
}

/// The text so far, extended with the JSON array of service lines.
pub open spec fn json_lines_array_after(
    prefix: Seq<char>,
    lines: Seq<ServiceLine>,
    p: bool,
    ind: nat,
) -> Seq<char> {
    if lines.len() == 0 {
        prefix + "[]"@
    } else {
        line_items_from(
            json_line_after(prefix + seq!['['] + nl_ind(p, ind + 2), lines[0], p, (ind
                + 2) as nat),
            lines,
            p,
            (ind + 2) as nat,
            1,
        ) + nl_ind(p, ind) + seq![']']
    }
}

/// The text so far, extended with the JSON object for an anomaly record.
pub open spec fn json_anomaly_after(prefix: Seq<char>, a: Anomaly, p: bool, ind: nat) -> Seq<
    char,
> {
    prefix + seq!['{'] + nl_ind(p, ind + 2) + fld("anomaly_type"@, p) + json_string(
        anomaly_type_str(a.anomaly_type),
    ) + seq![','] + nl_ind(p, ind + 2) + fld("description"@, p) + json_string(a.description@)
        + seq![','] + nl_ind(p, ind + 2) + fld("field"@, p) + json_opt_string(a.field)
        + seq![','] + nl_ind(p, ind + 2) + fld("original_value"@, p) + json_opt_string(
        a.original_value,
    ) + seq![','] + nl_ind(p, ind + 2) + fld("new_value"@, p) + json_opt_string(a.new_value)
        + nl_ind(p, ind) + seq!['}']
}

/// Anomaly array items from position `i` on.
pub open spec fn anomaly_items_from(
    prefix: Seq<char>,
    items: Seq<Anomaly>,
    p: bool,
    ind: nat,
    i: int,
) -> Seq<char>
    decreases items.len() - i,
{
    if i < 0 || i >= items.len() {
        prefix
    } else {
        anomaly_items_from(
            json_anomaly_after(prefix + seq![','] + nl_ind(p, ind), items[i], p, ind),
            items,
            p,
            ind,
            i + 1,
        )
    }
}

/// The text so far, extended with the JSON array of anomaly records.
pub open spec fn json_anomalies_array_after(
    prefix: Seq<char>,
    items: Seq<Anomaly>,
    p: bool,
    ind: nat,
) -> Seq<char> {
    if items.len() == 0 {
        prefix + "[]"@
    } else {
        anomaly_items_from(
            json_anomaly_after(prefix + seq!['['] + nl_ind(p, ind + 2), items[0], p, (ind
                + 2) as nat),
            items,
            p,
            (ind + 2) as nat,
            1,
        ) + nl_ind(p, ind) + seq![']']
    }
}

/// The text so far, extended with the JSON object for a claim.
pub open spec fn json_claim_after(prefix: Seq<char>, c: Claim, p: bool, ind: nat) -> Seq<char> {
    json_lines_array_after(
        json_opt_provider_after(
            json_provider_after(
                json_person_after(
                    prefix + seq!['{'] + nl_ind(p, ind + 2) + fld("claim_id"@, p) + json_string(
                        c.claim_id@,
                    ) + seq![','] + nl_ind(p, ind + 2) + fld("patient"@, p),
                    c.patient,
                    p,
                    (ind + 2) as nat,
                ) + seq![','] + nl_ind(p, ind + 2) + fld("billing_provider"@, p),
                c.billing_provider,
                p,
                (ind + 2) as nat,
            ) + seq![','] + nl_ind(p, ind + 2) + fld("rendering_provider"@, p),
            c.rendering_provider,
            p,
            (ind + 2) as nat,
        ) + seq![','] + nl_ind(p, ind + 2) + fld("service_lines"@, p),
        c.service_lines@,
        p,
        (ind + 2) as nat,
    ) + seq![','] + nl_ind(p, ind + 2) + fld("total_charge"@, p) + dec_digits(
        c.total_charge as nat,
    ) + seq![','] + nl_ind(p, ind + 2) + fld("total_payment"@, p) + dec_digits(
        c.total_payment as nat,
    ) + seq![','] + nl_ind(p, ind + 2) + fld("total_adjustment"@, p) + dec_digits(
        c.total_adjustment as nat,
    ) + seq![','] + nl_ind(p, ind + 2) + fld("patient_responsibility"@, p) + dec_digits(
        c.patient_responsibility as nat,
    ) + seq![','] + nl_ind(p, ind + 2) + fld("status"@, p) + json_string(status_str(c.status))
        + nl_ind(p, ind) + seq!['}']
}

/// The text so far, extended with one claim-with-anomalies record.
pub open spec fn json_result_after(
    prefix: Seq<char>,
    r: AnomalyInjectionResult,
    p: bool,
    ind: nat,
) -> Seq<char> {
    json_anomalies_array_after(
        json_claim_after(
            prefix + seq!['{'] + nl_ind(p, ind + 2) + fld("claim"@, p),
            r.claim,
            p,
            (ind + 2) as nat,
        ) + seq![','] + nl_ind(p, ind + 2) + fld("anomalies"@, p),
        r.anomalies@,
        p,
        (ind + 2) as nat,
    ) + nl_ind(p, ind) + seq!['}']
}

/// Batch array items from position `i` on.
pub open spec fn result_items_from(
    prefix: Seq<char>,
    rs: Seq<AnomalyInjectionResult>,
    p: bool,
    ind: nat,
    i: int,
) -> Seq<char>
    decreases rs.len() - i,
{
    if i < 0 || i >= rs.len() {
        prefix
    } else {
        result_items_from(
            json_result_after(prefix + seq![','] + nl_ind(p, ind), rs[i], p, ind),
            rs,
            p,
            ind,
            i + 1,
        )
    }
}

/// The text so far, extended with the JSON array of a whole batch.
pub open spec fn json_batch_after(
    prefix: Seq<char>,
    rs: Seq<AnomalyInjectionResult>,
    p: bool,
) -> Seq<char> {
    if rs.len() == 0 {
        prefix + "[]"@
    } else {
        result_items_from(
            json_result_after(prefix + seq!['['] + nl_ind(p, 2), rs[0], p, 2),
            rs,
            p,
            2,
            1,
        ) + nl_ind(p, 0) + seq![']']
    }
}

/// The JSON text of a whole batch.
pub open spec fn json_batch(rs: Seq<AnomalyInjectionResult>, p: bool) -> Seq<char> {
    json_batch_after(Seq::<char>::empty(), rs, p)
}

/// Appends `n` spaces.
fn append_spaces(s: &mut String, n: usize)
    ensures
        final(s)@ == old(s)@ + spaces(n as nat),
{
    proof {
        reveal(spaces);
    }
    let mut k: usize = 0;
    while k < n
        invariant
            k <= n,
            s@ == old(s)@ + spaces(k as nat),
        decreases n - k,
    {
        push_char(s, ' ');
        k = k + 1;
        proof {
            reveal(spaces);
        }
    }
}

/// Appends a line break and indentation when pretty.
fn append_nl_ind(s: &mut String, p: bool, ind: usize)
    ensures
        final(s)@ == old(s)@ + nl_ind(p, ind as nat),
{
    proof {
        reveal(nl_ind);
    }
    if p {
        push_char(s, '\n');
        append_spaces(s, ind);
        assert(s@ =~= old(s)@ + nl_ind(p, ind as nat));
    } else {
        assert(s@ =~= old(s)@ + nl_ind(p, ind as nat));
    }
}

/// Appends one character of a JSON string body, escaped.
fn append_esc_char(s: &mut String, c: char)
    ensures
        final(s)@ == old(s)@ + esc_char(c),
{
    proof {
        reveal(esc_char);
    }
    if c == '"' {
        push_char(s, '\\');
        push_char(s, '"');
    } else if c == '\\' {
        push_char(s, '\\');
        push_char(s, '\\');
    } else if c == '\n' {
        push_char(s, '\\');
        push_char(s, 'n');
    } else if c == '\r' {
        push_char(s, '\\');
        push_char(s, 'r');
    } else if c == '\t' {
        push_char(s, '\\');
        push_char(s, 't');
    } else {
        push_char(s, c);
    }
    assert(s@ =~= old(s)@ + esc_char(c));
}

/// Appends a JSON string value.
fn append_json_string(s: &mut String, v: &str)
    ensures
        final(s)@ == old(s)@ + json_string(v@),
{
    proof {
        reveal(json_string);
        reveal(esc_str);
    }
    push_char(s, '"');
    let n = v.unicode_len();
    let mut i: usize = 0;
    while i < n
        invariant
            i <= n,
            n == v@.len(),
            s@ == old(s)@ + seq!['"'] + esc_str(v@.take(i as int)),
        decreases n - i,
    {
        let c = v.get_char(i);
        append_esc_char(s, c);
        proof {
            reveal(esc_str);
            let ii = i as int;
            assert(v@.take(ii + 1).drop_last() =~= v@.take(ii));
            assert(v@.take(ii + 1).last() == v@[ii]);
        }
        i = i + 1;
    }
    push_char(s, '"');
    proof {
        assert(v@.take(v@.len() as int) =~= v@);
        assert(s@ =~= old(s)@ + json_string(v@));
    }
}

/// Appends a JSON string value or `null`.
fn append_json_opt_string(s: &mut String, v: &Option<String>)
    ensures
        final(s)@ == old(s)@ + json_opt_string(*v),
{
    proof {
        reveal(json_opt_string);
    }
    match v {
        None => s.append("null"),
        Some(x) => append_json_string(s, x.as_str()),
    }
}

/// Appends a field name and its colon.
fn append_fld(s: &mut String, name: &str, p: bool)
    ensures
        final(s)@ == old(s)@ + fld(name@, p),
{
    proof {
        reveal(fld);
    }
    push_char(s, '"');
    s.append(name);
    push_char(s, '"');
    push_char(s, ':');
    if p {
        push_char(s, ' ');
    }
    assert(s@ =~= old(s)@ + fld(name@, p));
}

/// Appends a decimal number value.
fn append_json_u64(s: &mut String, n: u64)
    ensures
        final(s)@ == old(s)@ + dec_digits(n as nat),
{
    s.append(u64_to_dec(n).as_str());
}

/// Appends the name of a claim status as a JSON string.
fn append_status(s: &mut String, st: ClaimStatus)
    ensures
        final(s)@ == old(s)@ + json_string(status_str(st)),
{
    match st {
        ClaimStatus::Paid => append_json_string(s, "Paid"),
        ClaimStatus::Denied => append_json_string(s, "Denied"),
        ClaimStatus::Partial => append_json_string(s, "Partial"),
        ClaimStatus::Pending => append_json_string(s, "Pending"),
    }
}

/// Appends the name of an anomaly kind as a JSON string.
fn append_anomaly_type(s: &mut String, t: AnomalyType)
    ensures
        final(s)@ == old(s)@ + json_string(anomaly_type_str(t)),
{
    match t {
        AnomalyType::MissingField => append_json_string(s, "MissingField"),
        AnomalyType::InvalidValue => append_json_string(s, "InvalidValue"),
        AnomalyType::InvalidDateFormat => append_json_string(s, "InvalidDateFormat"),
        AnomalyType::DuplicateClaim => append_json_string(s, "DuplicateClaim"),
        AnomalyType::InvalidProcedureCode => append_json_string(s, "InvalidProcedureCode"),
        AnomalyType::InvalidModifierCombination => append_json_string(
            s,
            "InvalidModifierCombination",
        ),
        AnomalyType::AgeGenderMismatch => append_json_string(s, "AgeGenderMismatch"),
        AnomalyType::InvalidProvider => append_json_string(s, "InvalidProvider"),
        AnomalyType::InvalidPatientInfo => append_json_string(s, "InvalidPatientInfo"),
        AnomalyType::MissingDocumentation => append_json_string(s, "MissingDocumentation"),
    }
}


/// Appends the JSON object for an address.
fn append_json_address(s: &mut String, a: &Address, p: bool, ind: usize)
    requires
        ind + 4 <= 100000,
    ensures
        final(s)@ == json_address_after(old(s)@, *a, p, ind as nat),
{
    push_char(s, '{');
    append_nl_ind(s, p, ind + 2);
    append_fld(s, "line1", p);
    append_json_string(s, a.line1.as_str());
    push_char(s, ',');
    append_nl_ind(s, p, ind + 2);
    append_fld(s, "line2", p);
    append_json_opt_string(s, &a.line2);
    push_char(s, ',');
    append_nl_ind(s, p, ind + 2);
    append_fld(s, "city", p);
    append_json_string(s, a.city.as_str());
    push_char(s, ',');
    append_nl_ind(s, p, ind + 2);
    append_fld(s, "state", p);
    append_json_string(s, a.state.as_str());
    push_char(s, ',');
    append_nl_ind(s, p, ind + 2);
    append_fld(s, "zip_code", p);
    append_json_string(s, a.zip_code.as_str());
    append_nl_ind(s, p, ind);
    push_char(s, '}');
}

/// Appends a JSON array of string values.
fn append_json_string_array(s: &mut String, items: &Vec<String>, p: bool, ind: usize)
    requires
        ind + 4 <= 100000,
    ensures
        final(s)@ == json_string_array_after(old(s)@, items@, p, ind as nat),
{
    if items.len() == 0 {
        s.append("[]");
        return ;
    }
    push_char(s, '[');
    append_nl_ind(s, p, ind + 2);
    append_json_string(s, items[0].as_str());
    let ghost base = s@;
    let mut j: usize = 1;
    while j < items.len()
        invariant
            1 <= j <= items@.len(),
            ind + 4 <= 100000,
            str_items_from(s@, items@, p, (ind + 2) as nat, j as int) == str_items_from(
                base,
                items@,
                p,
                (ind + 2) as nat,
                1,
            ),
        decreases items@.len() - j,
    {
        let ghost t = s@;
        push_char(s, ',');
        append_nl_ind(s, p, ind + 2);
        append_json_string(s, items[j].as_str());
        proof {
            assert(str_items_from(t, items@, p, (ind + 2) as nat, j as int) == str_items_from(
                s@,
                items@,
                p,
                (ind + 2) as nat,
                j as int + 1,
            ));
        }
        j = j + 1;
    }
    proof {
        assert(str_items_from(s@, items@, p, (ind + 2) as nat, j as int) == s@);
    }
    append_nl_ind(s, p, ind);
    push_char(s, ']');
}

/// Appends the JSON object for a person.
fn append_json_person(s: &mut String, q: &Person, p: bool, ind: usize)
    requires
        ind + 6 <= 100000,
    ensures
        final(s)@ == json_person_after(old(s)@, *q, p, ind as nat),
{
    push_char(s, '{');
    append_nl_ind(s, p, ind + 2);
    append_fld(s, "id", p);
    append_json_string(s, q.id.as_str());
    push_char(s, ',');
    append_nl_ind(s, p, ind + 2);
    append_fld(s, "first_name", p);
    append_json_string(s, q.first_name.as_str());
    push_char(s, ',');
    append_nl_ind(s, p, ind + 2);
    append_fld(s, "last_name", p);
    append_json_string(s, q.last_name.as_str());
    push_char(s, ',');
    append_nl_ind(s, p, ind + 2);
    append_fld(s, "date_of_birth", p);
    append_json_string(s, q.date_of_birth.as_str());
    push_char(s, ',');
    append_nl_ind(s, p, ind + 2);
    append_fld(s, "gender", p);
    append_json_string(s, q.gender.as_str());
    push_char(s, ',');
    append_nl_ind(s, p, ind + 2);
    append_fld(s, "address", p);
    append_json_address(s, &q.address, p, ind + 2);
    append_nl_ind(s, p, ind);
    push_char(s, '}');
}

/// Appends the JSON object for a provider.
fn append_json_provider(s: &mut String, q: &Provider, p: bool, ind: usize)
    requires
        ind + 6 <= 100000,
    ensures
        final(s)@ == json_provider_after(old(s)@, *q, p, ind as nat),
{
    push_char(s, '{');
    append_nl_ind(s, p, ind + 2);
    append_fld(s, "npi", p);
    append_json_string(s, q.npi.as_str());
    push_char(s, ',');
    append_nl_ind(s, p, ind + 2);
    append_fld(s, "provider_type", p);
    append_json_string(s, q.provider_type.as_str());
    push_char(s, ',');
    append_nl_ind(s, p, ind + 2);
    append_fld(s, "name", p);
    append_json_string(s, q.name.as_str());
    push_char(s, ',');
    append_nl_ind(s, p, ind + 2);
    append_fld(s, "address", p);
    append_json_address(s, &q.address, p, ind + 2);
    push_char(s, ',');
    append_nl_ind(s, p, ind + 2);
    append_fld(s, "taxonomy_codes", p);
    append_json_string_array(s, &q.taxonomy_codes, p, ind + 2);
    append_nl_ind(s, p, ind);
    push_char(s, '}');
}

/// Appends an optional provider, or `null`.
fn append_json_opt_provider(s: &mut String, q: &Option<Provider>, p: bool, ind: usize)
    requires
        ind + 6 <= 100000,
    ensures
        final(s)@ == json_opt_provider_after(old(s)@, *q, p, ind as nat),
{
    match q {
        None => s.append("null"),
        Some(x) => append_json_provider(s, x, p, ind),
    }
}

/// Appends the JSON object for a service line.
fn append_json_line(s: &mut String, l: &ServiceLine, p: bool, ind: usize)
    requires
        ind + 6 <= 100000,
    ensures
        final(s)@ == json_line_after(old(s)@, *l, p, ind as nat),
{
    push_char(s, '{');
    append_nl_ind(s, p, ind + 2);
    append_fld(s, "line_number", p);
    append_json_u64(s, l.line_number as u64);
    push_char(s, ',');
    append_nl_ind(s, p, ind + 2);
    append_fld(s, "procedure_code", p);
    append_json_string(s, l.procedure_code.as_str());
    push_char(s, ',');
    append_nl_ind(s, p, ind + 2);
    append_fld(s, "procedure_description", p);
    append_json_string(s, l.procedure_description.as_str());
    push_char(s, ',');
    append_nl_ind(s, p, ind + 2);
    append_fld(s, "service_date", p);
    append_json_string(s, l.service_date.as_str());
    push_char(s, ',');
    append_nl_ind(s, p, ind + 2);
    append_fld(s, "charge_amount", p);
    append_json_u64(s, l.charge_amount);
    push_char(s, ',');
    append_nl_ind(s, p, ind + 2);
    append_fld(s, "payment_amount", p);
    append_json_u64(s, l.payment_amount);
    push_char(s, ',');
    append_nl_ind(s, p, ind + 2);
    append_fld(s, "paid_amount", p);
    append_json_u64(s, l.paid_amount);
    push_char(s, ',');
    append_nl_ind(s, p, ind + 2);
    append_fld(s, "adjustment_amount", p);
    append_json_u64(s, l.adjustment_amount);
    push_char(s, ',');
    append_nl_ind(s, p, ind + 2);
    append_fld(s, "units", p);
    append_json_u64(s, l.units as u64);
    push_char(s, ',');
    append_nl_ind(s, p, ind + 2);
    append_fld(s, "place_of_service", p);
    append_json_string(s, l.place_of_service.as_str());
    push_char(s, ',');
    append_nl_ind(s, p, ind + 2);
    append_fld(s, "revenue_code", p);
    append_json_opt_string(s, &l.revenue_code);
    push_char(s, ',');
    append_nl_ind(s, p, ind + 2);
    append_fld(s, "modifiers", p);
    append_json_string_array(s, &l.modifiers, p, ind + 2);
    append_nl_ind(s, p, ind);
    push_char(s, '}');
}

/// Appends the JSON array of service lines.
fn append_json_lines_array(s: &mut String, lines: &Vec<ServiceLine>, p: bool, ind: usize)
    requires
        ind + 8 <= 100000,
    ensures
        final(s)@ == json_lines_array_after(old(s)@, lines@, p, ind as nat),
{
    if lines.len() == 0 {
        s.append("[]");
        return ;
    }
    push_char(s, '[');
    append_nl_ind(s, p, ind + 2);
    append_json_line(s, &lines[0], p, ind + 2);
    let ghost base = s@;
    let mut j: usize = 1;
    while j < lines.len()
        invariant
            1 <= j <= lines@.len(),
            ind + 8 <= 100000,
            line_items_from(s@, lines@, p, (ind + 2) as nat, j as int) == line_items_from(
                base,
                lines@,
                p,
                (ind + 2) as nat,
                1,
            ),
        decreases lines@.len() - j,
    {
        let ghost t = s@;
        push_char(s, ',');
        append_nl_ind(s, p, ind + 2);
        append_json_line(s, &lines[j], p, ind + 2);
        proof {
            assert(line_items_from(t, lines@, p, (ind + 2) as nat, j as int) == line_items_from(
                s@,
                lines@,
                p,
                (ind + 2) as nat,
                j as int + 1,
            ));
        }
        j = j + 1;
    }
    proof {
        assert(line_items_from(s@, lines@, p, (ind + 2) as nat, j as int) == s@);
    }
    append_nl_ind(s, p, ind);
    push_char(s, ']');
}

/// Appends the JSON object for an anomaly record.
fn append_json_anomaly(s: &mut String, a: &Anomaly, p: bool, ind: usize)
    requires
        ind + 4 <= 100000,
    ensures
        final(s)@ == json_anomaly_after(old(s)@, *a, p, ind as nat),
{
    push_char(s, '{');
    append_nl_ind(s, p, ind + 2);
    append_fld(s, "anomaly_type", p);
    append_anomaly_type(s, a.anomaly_type);
    push_char(s, ',');
    append_nl_ind(s, p, ind + 2);
    append_fld(s, "description", p);
    append_json_string(s, a.description.as_str());
    push_char(s, ',');
    append_nl_ind(s, p, ind + 2);
    append_fld(s, "field", p);
    append_json_opt_string(s, &a.field);
    push_char(s, ',');
    append_nl_ind(s, p, ind + 2);
    append_fld(s, "original_value", p);
    append_json_opt_string(s, &a.original_value);
    push_char(s, ',');
    append_nl_ind(s, p, ind + 2);
    append_fld(s, "new_value", p);
    append_json_opt_string(s, &a.new_value);
    append_nl_ind(s, p, ind);
    push_char(s, '}');
}

/// Appends the JSON array of anomaly records.
fn append_json_anomalies_array(s: &mut String, items: &Vec<Anomaly>, p: bool, ind: usize)
    requires
        ind + 8 <= 100000,
    ensures
        final(s)@ == json_anomalies_array_after(old(s)@, items@, p, ind as nat),
{
    if items.len() == 0 {
        s.append("[]");
        return ;
    }
    push_char(s, '[');
    append_nl_ind(s, p, ind + 2);
    append_json_anomaly(s, &items[0], p, ind + 2);
    let ghost base = s@;
    let mut j: usize = 1;
    while j < items.len()
        invariant
            1 <= j <= items@.len(),
            ind + 8 <= 100000,
            anomaly_items_from(s@, items@, p, (ind + 2) as nat, j as int) == anomaly_items_from(
                base,
                items@,
                p,
                (ind + 2) as nat,
                1,
            ),
        decreases items@.len() - j,
    {
        let ghost t = s@;
        push_char(s, ',');
        append_nl_ind(s, p, ind + 2);
        append_json_anomaly(s, &items[j], p, ind + 2);
        proof {
            assert(anomaly_items_from(t, items@, p, (ind + 2) as nat, j as int)
                == anomaly_items_from(s@, items@, p, (ind + 2) as nat, j as int + 1));
        }
        j = j + 1;
    }
    proof {
        assert(anomaly_items_from(s@, items@, p, (ind + 2) as nat, j as int) == s@);
    }
    append_nl_ind(s, p, ind);
    push_char(s, ']');
}

/// Appends the JSON object for a claim.
fn append_json_claim(s: &mut String, c: &Claim, p: bool, ind: usize)
    requires
        ind + 10 <= 100000,
    ensures
        final(s)@ == json_claim_after(old(s)@, *c, p, ind as nat),
{
    push_char(s, '{');
    append_nl_ind(s, p, ind + 2);
    append_fld(s, "claim_id", p);
    append_json_string(s, c.claim_id.as_str());
    push_char(s, ',');
    append_nl_ind(s, p, ind + 2);
    append_fld(s, "patient", p);
    append_json_person(s, &c.patient, p, ind + 2);
    push_char(s, ',');
    append_nl_ind(s, p, ind + 2);
    append_fld(s, "billing_provider", p);
    append_json_provider(s, &c.billing_provider, p, ind + 2);
    push_char(s, ',');
    append_nl_ind(s, p, ind + 2);
    append_fld(s, "rendering_provider", p);
    append_json_opt_provider(s, &c.rendering_provider, p, ind + 2);
    push_char(s, ',');
    append_nl_ind(s, p, ind + 2);
    append_fld(s, "service_lines", p);
    append_json_lines_array(s, &c.service_lines, p, ind + 2);
    push_char(s, ',');
    append_nl_ind(s, p, ind + 2);
    append_fld(s, "total_charge", p);
    append_json_u64(s, c.total_charge);
    push_char(s, ',');
    append_nl_ind(s, p, ind + 2);
    append_fld(s, "total_payment", p);
    append_json_u64(s, c.total_payment);
    push_char(s, ',');
    append_nl_ind(s, p, ind + 2);
    append_fld(s, "total_adjustment", p);
    append_json_u64(s, c.total_adjustment);
    push_char(s, ',');
    append_nl_ind(s, p, ind + 2);
    append_fld(s, "patient_responsibility", p);
    append_json_u64(s, c.patient_responsibility);
    push_char(s, ',');
    append_nl_ind(s, p, ind + 2);
    append_fld(s, "status", p);
    append_status(s, c.status);
    append_nl_ind(s, p, ind);
    push_char(s, '}');
}

/// Appends one claim-with-anomalies record.
fn append_json_result(s: &mut String, r: &AnomalyInjectionResult, p: bool, ind: usize)
    requires
        ind + 12 <= 100000,
    ensures
        final(s)@ == json_result_after(old(s)@, *r, p, ind as nat),
{
    push_char(s, '{');
    append_nl_ind(s, p, ind + 2);
    append_fld(s, "claim", p);
    append_json_claim(s, &r.claim, p, ind + 2);
    push_char(s, ',');
    append_nl_ind(s, p, ind + 2);
    append_fld(s, "anomalies", p);
    append_json_anomalies_array(s, &r.anomalies, p, ind + 2);
    append_nl_ind(s, p, ind);
    push_char(s, '}');
}

/// Renders a whole batch of claim-with-anomalies records as a JSON array,
/// compact or indented.
pub fn render_json_results(results: &Vec<AnomalyInjectionResult>, pretty: bool) -> (r: String)
    ensures
        r@ == json_batch(results@, pretty),
{
    let mut s = String::new();
    if results.len() == 0 {
        s.append("[]");
        return s;
    }
    push_char(&mut s, '[');
    append_nl_ind(&mut s, pretty, 2);
    append_json_result(&mut s, &results[0], pretty, 2);
    let ghost base = s@;
    let mut j: usize = 1;
    while j < results.len()
        invariant
            1 <= j <= results@.len(),
            result_items_from(s@, results@, pretty, 2, j as int) == result_items_from(
                base,
                results@,
                pretty,
                2,
                1,
            ),
        decreases results@.len() - j,
    {
        let ghost t = s@;
        push_char(&mut s, ',');
        append_nl_ind(&mut s, pretty, 2);
        append_json_result(&mut s, &results[j], pretty, 2);
        proof {
            assert(result_items_from(t, results@, pretty, 2, j as int) == result_items_from(
                s@,
                results@,
                pretty,
                2,
                j as int + 1,
            ));
        }
        j = j + 1;
    }
    proof {
        assert(result_items_from(s@, results@, pretty, 2, j as int) == s@);
    }
    append_nl_ind(&mut s, pretty, 0);
    push_char(&mut s, ']');
    s
}

} // verus!
