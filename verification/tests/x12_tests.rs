use zedi_gen::envelope::{FunctionalGroup, TransactionSet, X12Interchange};
use zedi_gen::segments::{BprSegment, DtmSegment, TrnSegment, X12Segment};

#[test]
fn test_x12_interchange() {
    let mut interchange =
        X12Interchange::new("SENDER123", "RECEIVER456", "000000001", "230518", "1200");

    let mut group =
        FunctionalGroup::new("SENDER123", "RECEIVER456", "000000001", "20230518", "1200");

    let mut transaction = TransactionSet::new("0001");

    let bpr = BprSegment {
        bpr02_payment_amount: 100050,
        bpr03_credit_debit: 'C',
        bpr04_payment_method: "ACH".to_string(),
        bpr16_payment_date: "20230518".to_string(),
        bpr_issue_date: "20230518".to_string(),
    };
    transaction.add_segment(X12Segment::Bpr(bpr));

    let trn = TrnSegment {
        trn02_reference_id: "1234567890".to_string(),
        trn03_orig_company_id: "COMPANY123".to_string(),
    };
    transaction.add_segment(X12Segment::Trn(trn));

    group.add_transaction_set(transaction);
    interchange.add_functional_group(group);

    let x12_output = interchange.render();
    assert!(x12_output.contains("ISA*00*"));
    assert!(x12_output.contains("GS*HP*"));
    assert!(x12_output.contains("ST*835*"));
    assert!(x12_output.contains("BPR*C*1000.50"));
    assert!(x12_output.contains("TRN*1*1234567890*COMPANY123"));
    assert!(x12_output.contains("SE*"));
    assert!(x12_output.contains("GE*"));
    assert!(x12_output.contains("IEA*"));
}

#[test]
fn trailer_counters_track_additions() {
    let mut transaction = TransactionSet::new("0001");
    assert_eq!(transaction.se.se01_segment_count, 0);
    for m in 1..=7u32 {
        let dtm = DtmSegment {
            dtm01_qualifier: "405".to_string(),
            dtm02_date: "20230518".to_string(),
        };
        transaction.add_segment(X12Segment::Dtm(dtm));
        assert_eq!(transaction.se.se01_segment_count, m + 2);
    }

    let mut group = FunctionalGroup::new("S", "R", "1", "20230518", "1200");
    for n in 1..=5u32 {
        group.add_transaction_set(TransactionSet::new("0001"));
        assert_eq!(group.ge.ge01_number_of_transaction_sets, n);
    }

    let mut interchange = X12Interchange::new("S", "R", "1", "230518", "1200");
    assert_eq!(interchange.iea.iea01_number_of_included_functional_groups, 0);
    interchange.add_functional_group(group);
    assert_eq!(interchange.iea.iea01_number_of_included_functional_groups, 1);
}

#[test]
fn control_numbers_link_headers_to_trailers() {
    let transaction = TransactionSet::new("4711");
    assert_eq!(transaction.st.st02_control_number, "4711");
    assert_eq!(transaction.se.se02_transaction_control_number, "4711");
    assert_eq!(transaction.st.render(), "ST*835*4711*005010X221A1~");
    assert_eq!(transaction.se.render(), "SE*0*4711~");

    let group = FunctionalGroup::new("S", "R", "12345", "20230518", "1200");
    assert_eq!(group.gs.gs06_group_control_number, "12345");
    assert_eq!(group.ge.ge02_group_control_number, "12345");

    let interchange = X12Interchange::new("S", "R", "999", "230518", "1200");
    assert_eq!(interchange.isa.isa12_control_number, "999");
    assert_eq!(interchange.iea.iea02_interchange_control_number, "999");
}

#[test]
fn rendered_segments_use_documented_delimiters() {
    let dtm = DtmSegment {
        dtm01_qualifier: "405".to_string(),
        dtm02_date: "20230518".to_string(),
    };
    assert_eq!(dtm.render(), "DTM*405*20230518~");

    let trn = TrnSegment {
        trn02_reference_id: "A".to_string(),
        trn03_orig_company_id: "B".to_string(),
    };
    assert_eq!(trn.render(), "TRN*1*A*B~");
}
