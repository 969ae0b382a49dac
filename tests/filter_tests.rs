use vcf_tui::filter::{
    field_matches, field_matches_lowered, filter_records, parse_pos_range, pos_matches, PosRange,
};
use vcf_tui::record::VcfRecord;

fn rec(chrom: &str, pos: &str, ref_: &str, alt: &str) -> VcfRecord {
    VcfRecord {
        chrom: chrom.to_string(),
        pos: pos.to_string(),
        id: ".".to_string(),
        ref_: ref_.to_string(),
        alt: alt.to_string(),
        qual: ".".to_string(),
        filter: ".".to_string(),
        info: ".".to_string(),
    }
}

fn sample() -> Vec<VcfRecord> {
    vec![rec("chr1", "100", "A", "G"), rec("chr1", "250", "A", "T"), rec("chr2", "100", "C", "G")]
}

fn ids(out: &[&VcfRecord]) -> Vec<(String, String)> {
    out.iter().map(|r| (r.chrom.clone(), r.pos.clone())).collect()
}

#[test]
fn position_filter_texts() {
    assert_eq!(parse_pos_range("100"), PosRange::Exact(100));
    assert_eq!(parse_pos_range("100-200"), PosRange::Range(100, 200));
    assert_eq!(parse_pos_range("200-100"), PosRange::Unconstrained);
    assert_eq!(parse_pos_range("abc"), PosRange::Unconstrained);
    assert_eq!(parse_pos_range(""), PosRange::Unconstrained);
    assert_eq!(parse_pos_range("100-200-300"), PosRange::Unconstrained);
}

#[test]
fn position_filter_texts_with_spaces() {
    assert_eq!(parse_pos_range("  42 "), PosRange::Exact(42));
    assert_eq!(parse_pos_range(" 5 - 9 "), PosRange::Range(5, 9));
    assert_eq!(parse_pos_range("7-7"), PosRange::Range(7, 7));
    assert_eq!(parse_pos_range("-5"), PosRange::Unconstrained);
    assert_eq!(parse_pos_range("   "), PosRange::Unconstrained);
}

#[test]
fn position_matching() {
    assert!(pos_matches("100", PosRange::Unconstrained));
    assert!(pos_matches("x", PosRange::Unconstrained));
    assert!(pos_matches("100", PosRange::Exact(100)));
    assert!(!pos_matches("0100", PosRange::Exact(100)));
    assert!(pos_matches("150", PosRange::Range(100, 200)));
    assert!(pos_matches("200", PosRange::Range(100, 200)));
    assert!(!pos_matches("201", PosRange::Range(100, 200)));
    assert!(!pos_matches("abc", PosRange::Range(0, 200)));
}

#[test]
fn empty_criteria_keep_every_record() {
    let records = sample();
    let out = filter_records(&records, "", "", "", "");
    assert_eq!(ids(&out), ids(&records.iter().collect::<Vec<_>>()));
}

#[test]
fn chromosome_criterion_ignores_case_and_keeps_order() {
    let records = vec![rec("chr10", "1", "A", "G"), rec("chrX", "2", "A", "G"), rec("Chr1", "3", "A", "G")];
    let out = filter_records(&records, "CHR1", "", "", "");
    assert_eq!(ids(&out), vec![("chr10".to_string(), "1".to_string()), ("Chr1".to_string(), "3".to_string())]);
}

#[test]
fn allele_criteria() {
    let records = sample();
    let out = filter_records(&records, "", "a", "", "");
    assert_eq!(out.len(), 2);
    let out = filter_records(&records, "", "", "g", "");
    assert_eq!(ids(&out), vec![("chr1".to_string(), "100".to_string()), ("chr2".to_string(), "100".to_string())]);
}

#[test]
fn chromosome_and_range_pick_the_first_record() {
    let records = sample();
    let out = filter_records(&records, "chr1", "", "", "100-200");
    assert_eq!(ids(&out), vec![("chr1".to_string(), "100".to_string())]);
}

#[test]
fn exact_position_criterion() {
    let records = sample();
    let out = filter_records(&records, "", "", "", "100");
    assert_eq!(out.len(), 2);
    let out = filter_records(&records, "", "", "", "bogus");
    assert_eq!(out.len(), 3);
}

#[test]
fn lowered_field_matching() {
    assert!(field_matches_lowered("Chr1", "CHR1", "chr1"));
    assert!(field_matches_lowered("chrX", "", ""));
    assert!(!field_matches_lowered("chr2", "CHR1", "chr1"));
    assert!(field_matches("CHR10", "chr1"));
    assert!(!field_matches("chrX", "chr1"));
}
