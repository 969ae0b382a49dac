use vstd::prelude::*;

verus! {

/// One data line of a variant-call file, field by field.
#[derive(Debug, Clone)]
pub struct VcfRecord {
    pub chrom: String,
    pub pos: String,
    pub id: String,
    pub ref_: String,
    pub alt: String,
    pub qual: String,
    pub filter: String,
    pub info: String,
}

/// The fields of a record as character sequences.
pub ghost struct RecordView {
    pub chrom: Seq<char>,
    pub pos: Seq<char>,
    pub id: Seq<char>,
    pub ref_: Seq<char>,
    pub alt: Seq<char>,
    pub qual: Seq<char>,
    pub filter: Seq<char>,
    pub info: Seq<char>,
}

impl View for VcfRecord {
    type V = RecordView;

    open spec fn view(&self) -> RecordView {
        RecordView {
            chrom: self.chrom@,
            pos: self.pos@,
            id: self.id@,
            ref_: self.ref_@,
            alt: self.alt@,
            qual: self.qual@,
            filter: self.filter@,
            info: self.info@,
        }
    }
}

/// The tab-separated fields of `s`: one more than `s` has tabs.
pub open spec fn tab_fields(s: Seq<char>) -> Seq<Seq<char>>
    decreases s.len(),
{
    if s.len() == 0 {
        seq![Seq::empty()]
    } else {
        let p = tab_fields(s.drop_last());
        if s.last() == '\t' {
            p.push(Seq::empty())
        } else {
            p.update(p.len() - 1, p.last().push(s.last()))
        }
    }
}

/// The text of the optional field `i` of `f`, or `.` where the line has no such field.
pub open spec fn field_or_dot(f: Seq<Seq<char>>, i: int) -> Seq<char> {
    if i < f.len() {
        f[i]
    } else {
        seq!['.']
    }
}

/// A line is skipped when it is a comment or has fewer than five fields.
pub open spec fn is_skipped(line: Seq<char>) -> bool {
    (line.len() > 0 && line[0] == '#') || tab_fields(line).len() < 5
}

/// The record that `line` holds, if it is not skipped.
pub open spec fn decoded(line: Seq<char>) -> Option<RecordView> {
    if is_skipped(line) {
        None
    } else {
        let f = tab_fields(line);
        Some(
            RecordView {
                chrom: f[0],
                pos: f[1],
                id: f[2],
                ref_: f[3],
                alt: f[4],
                qual: field_or_dot(f, 5),
                filter: field_or_dot(f, 6),
                info: field_or_dot(f, 7),
            },
        )
    }
}

/// The text of each string of `v`.
pub open spec fn texts(v: Seq<String>) -> Seq<Seq<char>> {
    v.map_values(|s: String| s@)
}

/// Splits `line` at each tab.
pub fn split_tabs(line: &str) -> (r: Vec<String>)
    ensures
        texts(r@) == tab_fields(line@),
{
    let mut fields: Vec<String> = Vec::new();
    let mut start: usize = 0;
    let mut i: usize = 0;
    let n = line.unicode_len();
    assert(line@.take(0) =~= Seq::<char>::empty());
    assert(texts(fields@).push(line@.subrange(0, 0)) =~= seq![Seq::<char>::empty()]);
    for c in it: line.chars()
        invariant
            it.seq() == line@,
            n == line@.len(),
            i == it.index(),
            start <= i <= line@.len(),
            tab_fields(line@.take(i as int)) == texts(fields@).push(
                line@.subrange(start as int, i as int),
            ),
    {
        assert(i < n);
        let ghost s = line@.take(i + 1);
        assert(s.drop_last() =~= line@.take(i as int));
        assert(s.last() == c);
        let ghost before = texts(fields@);
        if c == '\t' {
            let f = line.substring_char(start, i).to_owned();
            fields.push(f);
            assert(texts(fields@) =~= before.push(line@.subrange(start as int, i as int)));
            start = i + 1;
            assert(line@.subrange(start as int, start as int) =~= Seq::<char>::empty());
            assert(tab_fields(s) == tab_fields(line@.take(i as int)).push(Seq::empty()));
        } else {
            assert(line@.subrange(start as int, i as int).push(c) =~= line@.subrange(
                start as int,
                i + 1,
            ));
            assert(before.push(line@.subrange(start as int, i as int)).update(
                before.len() as int,
                line@.subrange(start as int, i + 1),
            ) =~= before.push(line@.subrange(start as int, i + 1)));
            assert(tab_fields(s) == before.push(line@.subrange(start as int, i + 1)));
        }
        i = i + 1;
    }
    let last = line.substring_char(start, i).to_owned();
    fields.push(last);
    assert(line@.take(line@.len() as int) =~= line@);
    assert(texts(fields@) =~= tab_fields(line@));
    fields
}

/// The field `i` of `fields`, or `.` where there is none.
fn field_or_default(fields: &Vec<String>, i: usize) -> (r: String)
    ensures
        r@ == field_or_dot(texts(fields@), i as int),
{
    if i < fields.len() {
        fields[i].clone()
    } else {
        proof {
            reveal_strlit(".");
        }
        String::from_str(".")
    }
}

/// Decodes one line of a variant-call file; `None` for a comment line or a
/// line with fewer than five tab-separated fields.
pub fn parse_line(line: &str) -> (r: Option<VcfRecord>)
    ensures
        match r {
            Some(rec) => decoded(line@) == Some(rec@),
            None => decoded(line@) is None,
        },
{
    let n = line.unicode_len();
    if n > 0 && line.get_char(0) == '#' {
        return None;
    }
    let fields = split_tabs(line);
    if fields.len() < 5 {
        return None;
    }
    let rec = VcfRecord {
        chrom: fields[0].clone(),
        pos: fields[1].clone(),
        id: fields[2].clone(),
        ref_: fields[3].clone(),
        alt: fields[4].clone(),
        qual: field_or_default(&fields, 5),
        filter: field_or_default(&fields, 6),
        info: field_or_default(&fields, 7),
    };
    assert(rec@ == decoded(line@)->0);
    Some(rec)
}

/// The records of `lines`, skipped lines left out, in order.
pub open spec fn decoded_all(lines: Seq<String>) -> Seq<RecordView> {
    texts(lines).filter_map(|l: Seq<char>| decoded(l))
}

/// The view of each record of `v`.
pub open spec fn record_views(v: Seq<VcfRecord>) -> Seq<RecordView> {
    v.map_values(|r: VcfRecord| r@)
}

/// Decodes the lines of a variant-call file into its records.
pub fn parse_vcf(lines: &Vec<String>) -> (r: Vec<VcfRecord>)
    ensures
        record_views(r@) == decoded_all(lines@),
{
    let mut out: Vec<VcfRecord> = Vec::new();
    let mut i: usize = 0;
    while i < lines.len()
        invariant
            i <= lines@.len(),
            record_views(out@) == decoded_all(lines@.take(i as int)),
        decreases lines@.len() - i,
    {
        let ghost t = lines@.take(i + 1);
        assert(texts(t).drop_last() =~= texts(lines@.take(i as int)));
        assert(texts(t).last() == lines@[i as int]@);
        let ghost before = out@;
        match parse_line(lines[i].as_str()) {
            Some(rec) => {
                out.push(rec);
                assert(record_views(out@) =~= record_views(before) + seq![rec@]);
            },
            None => {},
        }
        i = i + 1;
    }
    assert(lines@.take(i as int) =~= lines@);
    out
}

} // verus!
