use vstd::prelude::*;

use crate::decimal::{is_decimal_of, is_decimal_text, parse_u64, parsed_u64};
use crate::record::{RecordView, VcfRecord};
use crate::text::{contains_str, lower_of, lowercase, occurs_in, trim, trimmed, chars_of};

verus! {

/// The constraint that a position filter puts on a record's position.
#[derive(Debug, Clone, Copy, PartialEq, Eq, Structural)]
pub enum PosRange {
    Unconstrained,
    Exact(u64),
    Range(u64, u64),
}

/// `k` is the place of the first `-` in `t`.
pub open spec fn first_dash_at(t: Seq<char>, k: int) -> bool {
    &&& 0 <= k < t.len()
    &&& t[k] == '-'
    &&& forall|j: int| 0 <= j < k ==> t[j] != '-'
}

/// The range that two bounds give: both must read as numbers, the first no
/// larger than the second.
pub open spec fn range_of(lo: Seq<char>, hi: Seq<char>) -> PosRange {
    match (parsed_u64(trimmed(lo)), parsed_u64(trimmed(hi))) {
        (Some(a), Some(b)) => if a <= b {
            PosRange::Range(a, b)
        } else {
            PosRange::Unconstrained
        },
        _ => PosRange::Unconstrained,
    }
}

/// What a position filter text means: no constraint when it is blank, one
/// position when it reads as a number, an inclusive range when it is two numbers
/// around its first `-`, and no constraint otherwise.
pub open spec fn pos_range_of(s: Seq<char>) -> PosRange {
    let t = trimmed(s);
    if t.len() == 0 {
        PosRange::Unconstrained
    } else if parsed_u64(t) is Some {
        PosRange::Exact(parsed_u64(t)->0)
    } else if exists|k: int| first_dash_at(t, k) {
        let k = choose|k: int| first_dash_at(t, k);
        range_of(t.take(k), t.skip(k + 1))
    } else {
        PosRange::Unconstrained
    }
}

/// Parses a position filter text.
pub fn parse_pos_range(input: &str) -> (r: PosRange)
    ensures
        r == pos_range_of(input@),
{
    let s = trim(input);
    if s.unicode_len() == 0 {
        return PosRange::Unconstrained;
    }
    if let Some(pos) = parse_u64(s) {
        return PosRange::Exact(pos);
    }
    let cs = chars_of(s);
    let mut k: usize = 0;
    while k < cs.len() && cs[k] != '-'
        invariant
            cs@ == s@,
            k <= cs@.len(),
            forall|j: int| 0 <= j < k ==> cs@[j] != '-',
        decreases cs@.len() - k,
    {
        k = k + 1;
    }
    if k == cs.len() {
        assert(!exists|m: int| first_dash_at(s@, m));
        return PosRange::Unconstrained;
    }
    assert(first_dash_at(s@, k as int));
    assert forall|m: int| first_dash_at(s@, m) implies m == k by {
        if m < k {
            assert(cs@[m] != '-');
        } else if m > k {
            assert(s@[k as int] != '-');
        }
    }
    let lo = trim(s.substring_char(0, k));
    let hi = trim(s.substring_char(k + 1, cs.len()));
    assert(s@.subrange(0, k as int) =~= s@.take(k as int));
    assert(s@.subrange(k + 1, cs@.len() as int) =~= s@.skip(k + 1));
    match (parse_u64(lo), parse_u64(hi)) {
        (Some(a), Some(b)) => {
            if a <= b {
                PosRange::Range(a, b)
            } else {
                PosRange::Unconstrained
            }
        },
        _ => PosRange::Unconstrained,
    }
}

/// A record's position passes `range`: always when unconstrained, by its text
/// for one position, by its value for a range.
pub open spec fn pos_passes(pos: Seq<char>, range: PosRange) -> bool {
    match range {
        PosRange::Unconstrained => true,
        PosRange::Exact(v) => is_decimal_of(pos, v as nat),
        PosRange::Range(a, b) => match parsed_u64(pos) {
            Some(p) => a <= p && p <= b,
            None => false,
        },
    }
}

/// Tells whether the position text `pos` passes `range`.
pub fn pos_matches(pos: &str, range: PosRange) -> (r: bool)
    ensures
        r == pos_passes(pos@, range),
{
    match range {
        PosRange::Unconstrained => true,
        PosRange::Exact(v) => is_decimal_text(pos, v),
        PosRange::Range(a, b) => match parse_u64(pos) {
            Some(p) => a <= p && p <= b,
            None => false,
        },
    }
}

/// A field passes a text criterion when the criterion is empty or the field
/// holds it, both taken in lower case.
pub open spec fn field_passes(field: Seq<char>, criterion: Seq<char>) -> bool {
    criterion.len() == 0 || occurs_in(lower_of(field), lower_of(criterion))
}

/// A record passes the four criteria on chromosome, reference, alternate and position.
pub open spec fn keeps(
    r: RecordView,
    chrom: Seq<char>,
    ref_: Seq<char>,
    alt: Seq<char>,
    pos: Seq<char>,
) -> bool {
    &&& field_passes(r.chrom, chrom)
    &&& field_passes(r.ref_, ref_)
    &&& field_passes(r.alt, alt)
    &&& pos_passes(r.pos, pos_range_of(pos))
}

/// The records that pass the four criteria, in their order.
pub open spec fn kept(
    records: Seq<VcfRecord>,
    chrom: Seq<char>,
    ref_: Seq<char>,
    alt: Seq<char>,
    pos: Seq<char>,
) -> Seq<VcfRecord> {
    records.filter(|r: VcfRecord| keeps(r@, chrom, ref_, alt, pos))
}

/// Tells whether `field` passes `criterion`: the criterion is empty, or the
/// field holds it, both taken in lower case.
pub fn field_matches(field: &str, criterion: &str) -> (r: bool)
    ensures
        r == field_passes(field@, criterion@),
{
    let lower_criterion = lowercase(criterion);
    field_matches_lowered(field, criterion, lower_criterion.as_str())
}

/// Tells whether `field` passes the criterion whose lower-case form is `lower_criterion`.
pub fn field_matches_lowered(field: &str, criterion: &str, lower_criterion: &str) -> (r: bool)
    requires
        lower_criterion@ == lower_of(criterion@),
    ensures
        r == field_passes(field@, criterion@),
{
    if criterion.unicode_len() == 0 {
        return true;
    }
    let lower_field = lowercase(field);
    contains_str(lower_field.as_str(), lower_criterion)
}

/// The records that pass the four criteria, in their order.
pub fn filter_records<'a>(
    records: &'a Vec<VcfRecord>,
    chrom: &str,
    ref_: &str,
    alt: &str,
    pos: &str,
) -> (r: Vec<&'a VcfRecord>)
    ensures
        r@.unref() == kept(records@, chrom@, ref_@, alt@, pos@),
{
    let range = parse_pos_range(pos);
    let chrom_lower = lowercase(chrom);
    let ref_lower = lowercase(ref_);
    let alt_lower = lowercase(alt);
    let ghost pred = |r: VcfRecord| keeps(r@, chrom@, ref_@, alt@, pos@);
    let mut out: Vec<&'a VcfRecord> = Vec::new();
    let mut i: usize = 0;
    while i < records.len()
        invariant
            i <= records@.len(),
            range == pos_range_of(pos@),
            chrom_lower@ == lower_of(chrom@),
            ref_lower@ == lower_of(ref_@),
            alt_lower@ == lower_of(alt@),
            pred == (|r: VcfRecord| keeps(r@, chrom@, ref_@, alt@, pos@)),
            out@.unref() == records@.take(i as int).filter(pred),
        decreases records@.len() - i,
    {
        let r = &records[i];
        let pass = field_matches_lowered(r.chrom.as_str(), chrom, chrom_lower.as_str())
            && field_matches_lowered(r.ref_.as_str(), ref_, ref_lower.as_str())
            && field_matches_lowered(r.alt.as_str(), alt, alt_lower.as_str())
            && pos_matches(r.pos.as_str(), range);
        let ghost before = out@;
        proof {
            let t = records@.take(i + 1);
            assert(t.drop_last() =~= records@.take(i as int));
            assert(t.last() == *r);
            reveal(Seq::filter);
        }
        if pass {
            out.push(r);
            assert(out@.unref() =~= before.unref().push(*r));
        }
        i = i + 1;
    }
    assert(records@.take(i as int) =~= records@);
    out
}

/// `idx` picks the items of `a` out of `b`, at places that strictly increase.
pub open spec fn picks<T>(a: Seq<T>, b: Seq<T>, idx: Seq<int>) -> bool {
    &&& idx.len() == a.len()
    &&& forall|k: int| 0 <= k < idx.len() ==> 0 <= #[trigger] idx[k] < b.len()
    &&& forall|k: int| 0 <= k < idx.len() ==> b[#[trigger] idx[k]] == a[k]
    &&& forall|k: int, m: int| 0 <= k < m < idx.len() ==> #[trigger] idx[k] < #[trigger] idx[m]
}

/// `a` is `b` with some items left out, the rest in their order.
pub open spec fn is_subsequence<T>(a: Seq<T>, b: Seq<T>) -> bool {
    exists|idx: Seq<int>| picks(a, b, idx)
}

proof fn lemma_filter_all<T>(s: Seq<T>, pred: spec_fn(T) -> bool)
    requires
        forall|x: T| #[trigger] pred(x),
    ensures
        s.filter(pred) == s,
    decreases s.len(),
{
    reveal(Seq::filter);
    if s.len() > 0 {
        lemma_filter_all(s.drop_last(), pred);
        assert(s.drop_last().push(s.last()) =~= s);
    }
}

proof fn lemma_filter_is_subsequence<T>(s: Seq<T>, pred: spec_fn(T) -> bool)
    ensures
        is_subsequence(s.filter(pred), s),
    decreases s.len(),
{
    reveal(Seq::filter);
    if s.len() == 0 {
        assert(picks(s.filter(pred), s, Seq::<int>::empty()));
    } else {
        lemma_filter_is_subsequence(s.drop_last(), pred);
        let f = s.drop_last().filter(pred);
        let idx = choose|idx: Seq<int>| picks(f, s.drop_last(), idx);
        if pred(s.last()) {
            let idx2 = idx.push(s.len() - 1);
            assert(picks(s.filter(pred), s, idx2));
        } else {
            assert(picks(s.filter(pred), s, idx));
        }
    }
}

/// With all four criteria empty, filtering keeps every record, in order.
pub proof fn lemma_empty_criteria_keep_all(records: Seq<VcfRecord>)
    ensures
        kept(records, Seq::empty(), Seq::empty(), Seq::empty(), Seq::empty()) == records,
{
    let e = Seq::<char>::empty();
    assert(trimmed(e) == e);
    assert(pos_range_of(e) == PosRange::Unconstrained);
    let pred = |r: VcfRecord| keeps(r@, e, e, e, e);
    assert forall|r: VcfRecord| #[trigger] pred(r) by {}
    lemma_filter_all(records, pred);
}

/// With a non-empty chromosome criterion, every record that filtering keeps has
/// a chromosome that holds the criterion, ignoring case, and the kept records
/// stand in the order that they have among all records.
pub proof fn lemma_chromosome_criterion(
    records: Seq<VcfRecord>,
    chrom: Seq<char>,
    ref_: Seq<char>,
    alt: Seq<char>,
    pos: Seq<char>,
)
    requires
        chrom.len() > 0,
    ensures
        forall|k: int|
            0 <= k < kept(records, chrom, ref_, alt, pos).len() ==> occurs_in(
                lower_of((#[trigger] kept(records, chrom, ref_, alt, pos)[k]).chrom@),
                lower_of(chrom),
            ),
        is_subsequence(kept(records, chrom, ref_, alt, pos), records),
{
    let pred = |r: VcfRecord| keeps(r@, chrom, ref_, alt, pos);
    broadcast use Seq::lemma_filter_pred;
    lemma_filter_is_subsequence(records, pred);
}

} // verus!
