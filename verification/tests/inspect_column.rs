use state_advance::inspect::{
    be_u64_of_tail, record_entry_with_key, ColumnScan, GapReport, InspectTarget,
};

#[test]
fn tags_parse_to_their_targets() {
    assert_eq!(InspectTarget::from_tag("sizes"), Some(InspectTarget::ValueSizes));
    assert_eq!(InspectTarget::from_tag("total"), Some(InspectTarget::ValueTotal));
    assert_eq!(InspectTarget::from_tag("values"), Some(InspectTarget::Values));
    assert_eq!(InspectTarget::from_tag("gaps"), Some(InspectTarget::Gaps));
    assert_eq!(InspectTarget::from_tag("Sizes"), None);
    assert_eq!(InspectTarget::from_tag(""), None);
    assert_eq!(InspectTarget::from_tag("size"), None);
}

#[test]
fn variant_tags_list_the_command_surface() {
    assert_eq!(
        InspectTarget::variant_tags(),
        vec!["sizes", "total", "values", "gaps"]
    );
}

#[test]
fn numeric_key_is_the_big_endian_tail() {
    assert_eq!(be_u64_of_tail(&vec![0, 0, 0, 0, 0, 0, 1, 2]), 258);
    // bytes before the final eight are ignored
    assert_eq!(be_u64_of_tail(&vec![0xff, 0, 0, 0, 0, 0, 0, 0, 5]), 5);
    assert_eq!(
        be_u64_of_tail(&vec![0xff; 8]),
        u64::MAX
    );
    assert_eq!(
        be_u64_of_tail(&vec![0x12, 0x34, 0x56, 0x78, 0x9a, 0xbc, 0xde, 0xf0]),
        0x123456789abcdef0
    );
}

#[test]
fn consecutive_keys_report_no_gap() {
    let mut scan = ColumnScan::new();
    assert_eq!(scan.check_gap(1), None);
    scan.record_entry(10);
    assert_eq!(scan.check_gap(2), None);
    scan.record_entry(10);
    assert_eq!(scan.check_gap(3), None);
    scan.record_entry(10);
    assert!(!scan.found_gaps);
    assert_eq!(scan.num_keys, 3);
    assert_eq!(scan.total_bytes, 30);
}

#[test]
fn a_missing_key_reports_a_gap() {
    let mut scan = ColumnScan::new();
    assert_eq!(scan.check_gap(1), None);
    scan.record_entry(4);
    assert_eq!(scan.check_gap(2), None);
    scan.record_entry(4);
    assert_eq!(
        scan.check_gap(4),
        Some(GapReport { prev_key: 2, next_key: 4, offset: 2 })
    );
    scan.record_entry(4);
    assert!(scan.found_gaps);
}

#[test]
fn a_column_not_starting_at_zero_gaps_against_the_initial_key() {
    // the detector starts from key 0, as the command does
    let mut scan = ColumnScan::new();
    assert_eq!(
        scan.check_gap(5),
        Some(GapReport { prev_key: 0, next_key: 5, offset: 0 })
    );
}

#[test]
fn entry_recording_totals_sizes_and_encodes_keys() {
    let mut scan = ColumnScan::new();
    let hex = record_entry_with_key(&mut scan, &vec![0x0f, 0xa0], 100);
    assert_eq!(hex, "0fa0");
    let hex = record_entry_with_key(&mut scan, &vec![], 23);
    assert_eq!(hex, "");
    let hex = record_entry_with_key(&mut scan, &vec![0x01, 0x02, 0x03, 0xff], 0);
    assert_eq!(hex, "010203ff");
    assert_eq!(scan.num_keys, 3);
    assert_eq!(scan.total_bytes, 123);
}
