use vcf_tui::record::{parse_line, parse_vcf, split_tabs};

#[test]
fn decodes_a_five_field_line_with_defaults() {
    let r = parse_line("chr1\t100\trs1\tA\tG").expect("a record");
    assert_eq!(r.chrom, "chr1");
    assert_eq!(r.pos, "100");
    assert_eq!(r.id, "rs1");
    assert_eq!(r.ref_, "A");
    assert_eq!(r.alt, "G");
    assert_eq!(r.qual, ".");
    assert_eq!(r.filter, ".");
    assert_eq!(r.info, ".");
}

#[test]
fn skips_comment_lines() {
    assert!(parse_line("#comment").is_none());
    assert!(parse_line("#CHROM\tPOS\tID\tREF\tALT").is_none());
}

#[test]
fn skips_lines_with_four_fields() {
    assert!(parse_line("chr1\t100\trs1\tA").is_none());
    assert!(parse_line("").is_none());
}

#[test]
fn decodes_all_eight_fields() {
    let r = parse_line("chr2\t5\t.\tC\tT\t50\tPASS\tDP=3\textra").expect("a record");
    assert_eq!(r.qual, "50");
    assert_eq!(r.filter, "PASS");
    assert_eq!(r.info, "DP=3");
}

#[test]
fn empty_fields_are_kept() {
    let r = parse_line("\t\t\t\t").expect("a record");
    assert_eq!(r.chrom, "");
    assert_eq!(r.alt, "");
    assert_eq!(r.qual, ".");
}

#[test]
fn split_tabs_gives_one_more_field_than_tabs() {
    assert_eq!(split_tabs("a\tb\t\tc"), vec!["a", "b", "", "c"]);
    assert_eq!(split_tabs(""), vec![""]);
    assert_eq!(split_tabs("\t"), vec!["", ""]);
}

#[test]
fn parse_vcf_keeps_data_lines_in_order() {
    let lines: Vec<String> = vec![
        "##fileformat=VCFv4.2".to_string(),
        "#CHROM\tPOS\tID\tREF\tALT".to_string(),
        "chr1\t100\trs1\tA\tG".to_string(),
        "broken\tline".to_string(),
        "chr2\t200\trs2\tC\tT\t30".to_string(),
    ];
    let recs = parse_vcf(&lines);
    assert_eq!(recs.len(), 2);
    assert_eq!(recs[0].id, "rs1");
    assert_eq!(recs[1].chrom, "chr2");
    assert_eq!(recs[1].qual, "30");
    assert_eq!(recs[1].info, ".");
}
