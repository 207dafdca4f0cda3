//! The segment vocabulary of the interchange document: one struct per
//! segment shape, each with an exact rendering. Fields are separated by `*`
//! and every segment ends with `~`. Amounts are held in minor currency units
//! and rendered with two decimal places. A closed [`X12Segment`] sum type
//! carries the segments a transaction set may hold.

use vstd::prelude::*;
use crate::strfmt::{
    cents_str, cents_to_string, dec_digits, push_char, space_pad_right, pad_spaces_right,
    u64_to_dec,
};

verus! {

/// Interchange header.
#[derive(Debug, Clone)]
pub struct IsaSegment {
    pub isa06_sender_id: String,
    pub isa08_receiver_id: String,
    pub isa09_date: String,
    pub isa10_time: String,
    pub isa12_control_number: String,
    pub isa13_usage_indicator: char,
}

impl IsaSegment {
    /// The on-the-wire text of this segment.
    pub open spec fn render_spec(self) -> Seq<char> {
        "ISA*00*          *00*          *ZZ*"@ + space_pad_right(self.isa06_sender_id@, 15)
            + "*ZZ*"@ + space_pad_right(self.isa08_receiver_id@, 15) + "*"@ + self.isa09_date@
            + "*"@ + self.isa10_time@ + "*^*00501*"@ + self.isa12_control_number@ + "*0*"@
            + seq![self.isa13_usage_indicator] + "*~"@
    }

    /// Renders this segment.
    pub fn render(&self) -> (s: String)
        ensures
            s@ == self.render_spec(),
    {
        let mut s = String::from_str("ISA*00*          *00*          *ZZ*");
        s.append(pad_spaces_right(self.isa06_sender_id.clone(), 15).as_str());
        s.append("*ZZ*");
        s.append(pad_spaces_right(self.isa08_receiver_id.clone(), 15).as_str());
        s.append("*");
        s.append(self.isa09_date.as_str());
        s.append("*");
        s.append(self.isa10_time.as_str());
        s.append("*^*00501*");
        s.append(self.isa12_control_number.as_str());
        s.append("*0*");
        push_char(&mut s, self.isa13_usage_indicator);
        s.append("*~");
        assert(s@ =~= self.render_spec());
        s
    }
}

/// Functional group header.
#[derive(Debug, Clone)]
pub struct GsSegment {
    pub gs02_sender_id: String,
    pub gs03_receiver_id: String,
    pub gs04_date: String,
    pub gs05_time: String,
    pub gs06_group_control_number: String,
}

impl GsSegment {
    /// The on-the-wire text of this segment.
    pub open spec fn render_spec(self) -> Seq<char> {
        "GS*HP*"@ + self.gs02_sender_id@ + "*"@ + self.gs03_receiver_id@ + "*"@ + self.gs04_date@
            + "*"@ + self.gs05_time@ + "*"@ + self.gs06_group_control_number@
            + "*X*005010X221A1~"@
    }

    /// Renders this segment.
    pub fn render(&self) -> (s: String)
        ensures
            s@ == self.render_spec(),
    {
        let mut s = String::from_str("GS*HP*");
        s.append(self.gs02_sender_id.as_str());
        s.append("*");
        s.append(self.gs03_receiver_id.as_str());
        s.append("*");
        s.append(self.gs04_date.as_str());
        s.append("*");
        s.append(self.gs05_time.as_str());
        s.append("*");
        s.append(self.gs06_group_control_number.as_str());
        s.append("*X*005010X221A1~");
        assert(s@ =~= self.render_spec());
        s
    }
}

/// Transaction set header.
#[derive(Debug, Clone)]
pub struct StSegment {
    pub st02_control_number: String,
}

impl StSegment {
    /// The on-the-wire text of this segment: the header carries the same
    /// control number its trailer echoes.
    pub open spec fn render_spec(self) -> Seq<char> {
        "ST*835*"@ + self.st02_control_number@ + "*005010X221A1~"@
    }

    /// Renders this segment.
    pub fn render(&self) -> (s: String)
        ensures
            s@ == self.render_spec(),
    {
        let mut s = String::from_str("ST*835*");
        s.append(self.st02_control_number.as_str());
        s.append("*005010X221A1~");
        assert(s@ =~= self.render_spec());
        s
    }
}

/// Payment-summary segment.
#[derive(Debug, Clone)]
pub struct BprSegment {
    pub bpr02_payment_amount: u64,
    pub bpr03_credit_debit: char,
    pub bpr04_payment_method: String,
    pub bpr16_payment_date: String,
    pub bpr_issue_date: String,
}

impl BprSegment {
    /// The on-the-wire text of this segment.
    pub open spec fn render_spec(self) -> Seq<char> {
        "BPR*C*"@ + cents_str(self.bpr02_payment_amount as nat)
            + "*C*ACH*CC*01*999999999*DA*999999999*"@ + self.bpr04_payment_method@ + "*"@
            + "9999999999"@ + "*01*999999999*DA*999999999*"@ + self.bpr16_payment_date@ + "*"@
            + self.bpr_issue_date@ + "~"@
    }

    /// Renders this segment.
    pub fn render(&self) -> (s: String)
        ensures
            s@ == self.render_spec(),
    {
        let mut s = String::from_str("BPR*C*");
        s.append(cents_to_string(self.bpr02_payment_amount).as_str());
        s.append("*C*ACH*CC*01*999999999*DA*999999999*");
        s.append(self.bpr04_payment_method.as_str());
        s.append("*");
        s.append("9999999999");
        s.append("*01*999999999*DA*999999999*");
        s.append(self.bpr16_payment_date.as_str());
        s.append("*");
        s.append(self.bpr_issue_date.as_str());
        s.append("~");
        assert(s@ =~= self.render_spec());
        s
    }
}

/// Trace segment.
#[derive(Debug, Clone)]
pub struct TrnSegment {
    pub trn02_reference_id: String,
    pub trn03_orig_company_id: String,
}

impl TrnSegment {
    /// The on-the-wire text of this segment.
    pub open spec fn render_spec(self) -> Seq<char> {
        "TRN*1*"@ + self.trn02_reference_id@ + "*"@ + self.trn03_orig_company_id@ + "~"@
    }

    /// Renders this segment.
    pub fn render(&self) -> (s: String)
        ensures
            s@ == self.render_spec(),
    {
        let mut s = String::from_str("TRN*1*");
        s.append(self.trn02_reference_id.as_str());
        s.append("*");
        s.append(self.trn03_orig_company_id.as_str());
        s.append("~");
        assert(s@ =~= self.render_spec());
        s
    }
}

/// Date segment.
#[derive(Debug, Clone)]
pub struct DtmSegment {
    pub dtm01_qualifier: String,
    pub dtm02_date: String,
}

impl DtmSegment {
    /// The on-the-wire text of this segment.
    pub open spec fn render_spec(self) -> Seq<char> {
        "DTM*"@ + self.dtm01_qualifier@ + "*"@ + self.dtm02_date@ + "~"@
    }

    /// Renders this segment.
    pub fn render(&self) -> (s: String)
        ensures
            s@ == self.render_spec(),
    {
        let mut s = String::from_str("DTM*");
        s.append(self.dtm01_qualifier.as_str());
        s.append("*");
        s.append(self.dtm02_date.as_str());
        s.append("~");
        assert(s@ =~= self.render_spec());
        s
    }
}

/// Name segment.
#[derive(Debug, Clone)]
pub struct N1Segment {
    pub n101_entity_id: String,
    pub n102_name: String,
    pub n103_id_qual: String,
    pub n104_id: String,
}

impl N1Segment {
    /// The on-the-wire text of this segment.
    pub open spec fn render_spec(self) -> Seq<char> {
        "N1*"@ + self.n101_entity_id@ + "*"@ + self.n102_name@ + "*"@ + self.n103_id_qual@ + "*"@
            + self.n104_id@ + "~"@
    }

    /// Renders this segment.
    pub fn render(&self) -> (s: String)
        ensures
            s@ == self.render_spec(),
    {
        let mut s = String::from_str("N1*");
        s.append(self.n101_entity_id.as_str());
        s.append("*");
        s.append(self.n102_name.as_str());
        s.append("*");
        s.append(self.n103_id_qual.as_str());
        s.append("*");
        s.append(self.n104_id.as_str());
        s.append("~");
        assert(s@ =~= self.render_spec());
        s
    }
}

/// Claim-payment segment.
#[derive(Debug, Clone)]
pub struct ClpSegment {
    pub clp01_claim_id: String,
    pub clp02_claim_status: String,
    pub clp03_charge_amount: u64,
    pub clp04_paid_amount: u64,
    pub clp05_patient_responsibility: u64,
    pub clp06_claim_type: String,
    pub clp07_payer_claim_number: String,
}

impl ClpSegment {
    /// The on-the-wire text of this segment.
    pub open spec fn render_spec(self) -> Seq<char> {
        "CLP*"@ + self.clp01_claim_id@ + "*"@ + self.clp02_claim_status@ + "*"@ + cents_str(
            self.clp03_charge_amount as nat,
        ) + "*"@ + cents_str(self.clp04_paid_amount as nat) + "**"@ + self.clp06_claim_type@
            + "*"@ + self.clp07_payer_claim_number@ + "*11*1~"@
    }

    /// Renders this segment.
    pub fn render(&self) -> (s: String)
        ensures
            s@ == self.render_spec(),
    {
        let mut s = String::from_str("CLP*");
        s.append(self.clp01_claim_id.as_str());
        s.append("*");
        s.append(self.clp02_claim_status.as_str());
        s.append("*");
        s.append(cents_to_string(self.clp03_charge_amount).as_str());
        s.append("*");
        s.append(cents_to_string(self.clp04_paid_amount).as_str());
        s.append("**");
        s.append(self.clp06_claim_type.as_str());
        s.append("*");
        s.append(self.clp07_payer_claim_number.as_str());
        s.append("*11*1~");
        assert(s@ =~= self.render_spec());
        s
    }
}

/// Service-payment segment.
#[derive(Debug, Clone)]
pub struct SvcSegment {
    pub svc01_procedure_code: String,
    pub svc02_charge_amount: u64,
    pub svc03_paid_amount: u64,
    pub svc04_revenue_code: Option<String>,
    pub svc05_units: u32,
}

impl SvcSegment {
    /// The on-the-wire text of this segment.
    pub open spec fn render_spec(self) -> Seq<char> {
        "SVC*"@ + self.svc01_procedure_code@ + ":"@ + cents_str(self.svc02_charge_amount as nat)
            + "*"@ + cents_str(self.svc03_paid_amount as nat) + "*"@ + cents_str(
            self.svc03_paid_amount as nat,
        ) + "*"@ + (match self.svc04_revenue_code {
            Some(r) => r@,
            None => Seq::<char>::empty(),
        }) + "*"@ + dec_digits(self.svc05_units as nat) + "~"@
    }

    /// Renders this segment.
    pub fn render(&self) -> (s: String)
        ensures
            s@ == self.render_spec(),
    {
        let mut s = String::from_str("SVC*");
        s.append(self.svc01_procedure_code.as_str());
        s.append(":");
        s.append(cents_to_string(self.svc02_charge_amount).as_str());
        s.append("*");
        s.append(cents_to_string(self.svc03_paid_amount).as_str());
        s.append("*");
        s.append(cents_to_string(self.svc03_paid_amount).as_str());
        s.append("*");
        match &self.svc04_revenue_code {
            Some(r) => s.append(r.as_str()),
            None => (),
        }
        s.append("*");
        s.append(u64_to_dec(self.svc05_units as u64).as_str());
        s.append("~");
        assert(s@ =~= self.render_spec());
        s
    }
}

/// Adjustment segment.
#[derive(Debug, Clone)]
pub struct CasSegment {
    pub cas01_group_code: String,
    pub cas02_reason_code: String,
    pub cas03_amount: u64,
    pub cas04_units: u32,
}

impl CasSegment {
    /// The on-the-wire text of this segment.
    pub open spec fn render_spec(self) -> Seq<char> {
        "CAS*"@ + self.cas01_group_code@ + "*"@ + self.cas02_reason_code@ + "*"@ + cents_str(
            self.cas03_amount as nat,
        ) + "*"@ + dec_digits(self.cas04_units as nat) + "~"@
    }

    /// Renders this segment.
    pub fn render(&self) -> (s: String)
        ensures
            s@ == self.render_spec(),
    {
        let mut s = String::from_str("CAS*");
        s.append(self.cas01_group_code.as_str());
        s.append("*");
        s.append(self.cas02_reason_code.as_str());
        s.append("*");
        s.append(cents_to_string(self.cas03_amount).as_str());
        s.append("*");
        s.append(u64_to_dec(self.cas04_units as u64).as_str());
        s.append("~");
        assert(s@ =~= self.render_spec());
        s
    }
}

/// Transaction set trailer.
#[derive(Debug, Clone)]
pub struct SeSegment {
    pub se01_segment_count: u32,
    pub se02_transaction_control_number: String,
}

impl SeSegment {
    /// The on-the-wire text of this segment.
    pub open spec fn render_spec(self) -> Seq<char> {
        "SE*"@ + dec_digits(self.se01_segment_count as nat) + "*"@
            + self.se02_transaction_control_number@ + "~"@
    }

    /// Renders this segment.
    pub fn render(&self) -> (s: String)
        ensures
            s@ == self.render_spec(),
    {
        let mut s = String::from_str("SE*");
        s.append(u64_to_dec(self.se01_segment_count as u64).as_str());
        s.append("*");
        s.append(self.se02_transaction_control_number.as_str());
        s.append("~");
        assert(s@ =~= self.render_spec());
        s
    }
}

/// Functional group trailer.
#[derive(Debug, Clone)]
pub struct GeSegment {
    pub ge01_number_of_transaction_sets: u32,
    pub ge02_group_control_number: String,
}

impl GeSegment {
    /// The on-the-wire text of this segment.
    pub open spec fn render_spec(self) -> Seq<char> {
        "GE*"@ + dec_digits(self.ge01_number_of_transaction_sets as nat) + "*"@
            + self.ge02_group_control_number@ + "~"@
    }

    /// Renders this segment.
    pub fn render(&self) -> (s: String)
        ensures
            s@ == self.render_spec(),
    {
        let mut s = String::from_str("GE*");
        s.append(u64_to_dec(self.ge01_number_of_transaction_sets as u64).as_str());
        s.append("*");
        s.append(self.ge02_group_control_number.as_str());
        s.append("~");
        assert(s@ =~= self.render_spec());
        s
    }
}

/// Interchange trailer.
#[derive(Debug, Clone)]
pub struct IeaSegment {
    pub iea01_number_of_included_functional_groups: u32,
    pub iea02_interchange_control_number: String,
}

impl IeaSegment {
    /// The on-the-wire text of this segment.
    pub open spec fn render_spec(self) -> Seq<char> {
        "IEA*"@ + dec_digits(self.iea01_number_of_included_functional_groups as nat) + "*"@
            + self.iea02_interchange_control_number@ + "~"@
    }

    /// Renders this segment.
    pub fn render(&self) -> (s: String)
        ensures
            s@ == self.render_spec(),
    {
        let mut s = String::from_str("IEA*");
        s.append(u64_to_dec(self.iea01_number_of_included_functional_groups as u64).as_str());
        s.append("*");
        s.append(self.iea02_interchange_control_number.as_str());
        s.append("~");
        assert(s@ =~= self.render_spec());
        s
    }
}

/// The closed vocabulary of segments a transaction set may hold.
#[derive(Debug, Clone)]
pub enum X12Segment {
    Isa(IsaSegment),
    Gs(GsSegment),
    St(StSegment),
    Bpr(BprSegment),
    Trn(TrnSegment),
    Dtm(DtmSegment),
    N1(N1Segment),
    Clp(ClpSegment),
    Svc(SvcSegment),
    Cas(CasSegment),
    Se(SeSegment),
    Ge(GeSegment),
    Iea(IeaSegment),
}

impl X12Segment {
    /// The on-the-wire text of the wrapped segment.
    pub open spec fn render_spec(self) -> Seq<char> {
        match self {
            X12Segment::Isa(x) => x.render_spec(),
            X12Segment::Gs(x) => x.render_spec(),
            X12Segment::St(x) => x.render_spec(),
            X12Segment::Bpr(x) => x.render_spec(),
            X12Segment::Trn(x) => x.render_spec(),
            X12Segment::Dtm(x) => x.render_spec(),
            X12Segment::N1(x) => x.render_spec(),
            X12Segment::Clp(x) => x.render_spec(),
            X12Segment::Svc(x) => x.render_spec(),
            X12Segment::Cas(x) => x.render_spec(),
            X12Segment::Se(x) => x.render_spec(),
            X12Segment::Ge(x) => x.render_spec(),
            X12Segment::Iea(x) => x.render_spec(),
        }
    }

    /// Renders the wrapped segment.
    pub fn render(&self) -> (s: String)
        ensures
            s@ == self.render_spec(),
    {
        match self {
            X12Segment::Isa(x) => x.render(),
            X12Segment::Gs(x) => x.render(),
            X12Segment::St(x) => x.render(),
            X12Segment::Bpr(x) => x.render(),
            X12Segment::Trn(x) => x.render(),
            X12Segment::Dtm(x) => x.render(),
            X12Segment::N1(x) => x.render(),
            X12Segment::Clp(x) => x.render(),
            X12Segment::Svc(x) => x.render(),
            X12Segment::Cas(x) => x.render(),
            X12Segment::Se(x) => x.render(),
            X12Segment::Ge(x) => x.render(),
            X12Segment::Iea(x) => x.render(),
        }
    }
}

} // verus!
