//! The three dataset pipelines: decode the delimited text, convert each
//! data row into its typed record under the header, and derive the
//! summary fields. Failures are per-record: the facility and inspection
//! datasets decode strictly (the first bad row aborts the decode), the
//! registrant dataset leniently (a bad row is skipped and the rest still
//! decode).

use vstd::prelude::*;

use crate::facility::{
    Location, LocationResponse, location_cols_present, location_from_row, location_matches,
    location_response, response_matches,
};
use crate::inspection::{
    InspectionReport, inspection_cols_present, inspection_from_row, inspection_matches,
};
use crate::registrant::{
    AphisReport, aphis_cols_present, aphis_fields_match, aphis_from_row, get_tested_animals,
    tested_summary,
};
use crate::rows::{csv_rows, parse_rows};

verus! {

/// Why a dataset failed to decode.
#[derive(PartialEq, Eq, Structural, Clone, Copy, Debug)]
pub enum DecodeError {
    /// The text holds no rows at all, or its first row is malformed.
    MissingHeader,
    /// A strict decode hit a data row that does not convert.
    BadRow,
}

/// The text yields at least one row and its first row is well-formed.
pub open spec fn header_ok(s: Seq<char>) -> bool {
    csv_rows(s).len() > 0 && csv_rows(s)[0] is Some
}

/// The header: the fields of the first row.
pub open spec fn header_of(s: Seq<char>) -> Seq<Seq<char>> {
    csv_rows(s)[0]->Some_0
}

/// The rows after the header.
pub open spec fn data_rows(s: Seq<char>) -> Seq<Option<Seq<Seq<char>>>> {
    csv_rows(s).drop_first()
}

/// A data row converts to a facility record: well-formed, as wide as the
/// header, and every declared column present.
pub open spec fn location_row_converts(h: Seq<Seq<char>>, row: Option<Seq<Seq<char>>>) -> bool {
    &&& row is Some
    &&& row->Some_0.len() == h.len()
    &&& location_cols_present(h, row->Some_0)
}

/// The output record holds the row's fields and the two derived
/// summaries of the facility record the row decodes to.
pub open spec fn location_output_matches(
    resp: LocationResponse,
    h: Seq<Seq<char>>,
    row: Option<Seq<Seq<char>>>,
) -> bool {
    exists|l: Location|
        #[trigger] location_matches(l, h, row->Some_0) && response_matches(resp, l)
}

/// Decodes the facility dataset strictly: every data row must convert,
/// and each yields exactly one decorated output record, in dataset order.
pub fn read_locations_from_csv(csv_data: &str) -> (r: Result<Vec<LocationResponse>, DecodeError>)
    ensures
        (r is Ok) <==> (header_ok(csv_data@) && (forall|i: int|
            0 <= i < data_rows(csv_data@).len() ==> location_row_converts(
                header_of(csv_data@),
                #[trigger] data_rows(csv_data@)[i],
            ))),
        (r matches Err(e) && e is MissingHeader) <==> !header_ok(csv_data@),
        (r matches Err(e) && e is BadRow) <==> (header_ok(csv_data@) && (exists|i: int|
            0 <= i < data_rows(csv_data@).len() && !location_row_converts(
                header_of(csv_data@),
                #[trigger] data_rows(csv_data@)[i],
            ))),
        r matches Ok(v) ==> {
            &&& v@.len() == data_rows(csv_data@).len()
            &&& forall|j: int|
                0 <= j < v@.len() ==> location_output_matches(
                    #[trigger] v@[j],
                    header_of(csv_data@),
                    data_rows(csv_data@)[j],
                )
        },
{
    let ghost s = csv_data@;
    let rows = parse_rows(csv_data);
    let ghost dr = data_rows(s);
    if rows.len() == 0 {
        return Err(DecodeError::MissingHeader);
    }
    let header = match &rows[0] {
        Some(h) => h,
        None => {
            return Err(DecodeError::MissingHeader);
        },
    };
    let ghost h = header_of(s);
    proof {
        assert(header.deep_view() == h);
        assert(dr.len() == csv_rows(s).len() - 1);
    }
    let mut out: Vec<LocationResponse> = Vec::new();
    let mut i: usize = 1;
    while i < rows.len()
        invariant
            s == csv_data@,
            1 <= i <= rows@.len(),
            rows.deep_view() == csv_rows(s),
            rows@.len() == csv_rows(s).len(),
            header_ok(s),
            h == header_of(s),
            header.deep_view() == h,
            dr == data_rows(s),
            dr.len() == csv_rows(s).len() - 1,
            out@.len() == i - 1,
            forall|j: int| 0 <= j < i - 1 ==> location_row_converts(h, #[trigger] dr[j]),
            forall|j: int|
                0 <= j < i - 1 ==> location_output_matches(#[trigger] out@[j], h, dr[j]),
        decreases rows@.len() - i,
    {
        proof {
            assert(dr[i - 1] == csv_rows(s)[i as int]);
            assert(rows.deep_view()[i as int] == rows@[i as int].deep_view());
        }
        match &rows[i] {
            Some(row) => {
                proof {
                    assert(dr[i - 1] is Some && dr[i - 1]->Some_0 == row.deep_view());
                }
                if row.len() != header.len() {
                    proof {
                        assert(!location_row_converts(h, dr[i - 1]));
                    }
                    return Err(DecodeError::BadRow);
                }
                match location_from_row(header, row) {
                    Some(l) => {
                        let ghost lg = l;
                        let resp = location_response(l);
                        let ghost respg = resp;
                        out.push(resp);
                        proof {
                            assert(location_matches(lg, h, row.deep_view()));
                            assert(location_output_matches(respg, h, dr[i - 1]));
                            assert(location_row_converts(h, dr[i - 1]));
                            assert(out@[i - 1] == respg);
                        }
                    },
                    None => {
                        proof {
                            assert(!location_row_converts(h, dr[i - 1]));
                        }
                        return Err(DecodeError::BadRow);
                    },
                }
            },
            None => {
                proof {
                    assert(!location_row_converts(h, dr[i - 1]));
                }
                return Err(DecodeError::BadRow);
            },
        }
        i = i + 1;
    }
    Ok(out)
}

/// A data row converts to a registrant record: well-formed, as wide as
/// the header, and every declared column present.
pub open spec fn aphis_row_converts(h: Seq<Seq<char>>, row: Option<Seq<Seq<char>>>) -> bool {
    &&& row is Some
    &&& row->Some_0.len() == h.len()
    &&& aphis_cols_present(h, row->Some_0)
}

/// The data rows a lenient registrant decode keeps: the converting rows'
/// fields, in dataset order.
pub open spec fn aphis_kept_rows(
    h: Seq<Seq<char>>,
    rows: Seq<Option<Seq<Seq<char>>>>,
) -> Seq<Seq<Seq<char>>>
    decreases rows.len(),
{
    if rows.len() == 0 {
        Seq::empty()
    } else {
        let rest = aphis_kept_rows(h, rows.drop_last());
        if aphis_row_converts(h, rows.last()) {
            rest.push(rows.last()->Some_0)
        } else {
            rest
        }
    }
}

/// When every row converts, the lenient decode keeps them all.
pub proof fn lemma_kept_rows_all(h: Seq<Seq<char>>, rows: Seq<Option<Seq<Seq<char>>>>)
    requires
        forall|i: int| 0 <= i < rows.len() ==> aphis_row_converts(h, #[trigger] rows[i]),
    ensures
        aphis_kept_rows(h, rows).len() == rows.len(),
    decreases rows.len(),
{
    if rows.len() > 0 {
        let head = rows.drop_last();
        assert(forall|i: int| 0 <= i < head.len() ==> head[i] == rows[i]);
        lemma_kept_rows_all(h, head);
        assert(aphis_row_converts(h, rows.last()));
    }
}

/// The output record holds the row's fields, and its summary field holds
/// the summary derived from its own count fields.
pub open spec fn aphis_output_matches(a: AphisReport, h: Seq<Seq<char>>, row: Seq<Seq<char>>) -> bool {
    &&& aphis_fields_match(a, h, row)
    &&& a.animals_tested matches Some(t) && t@ == tested_summary(a)
}

/// Decodes the registrant dataset leniently: a data row that does not
/// convert is skipped; every kept row yields exactly one record with its
/// `animals_tested` summary filled in, in dataset order.
pub fn read_aphis_reports_from_csv(csv_data: &str) -> (r: Result<Vec<AphisReport>, DecodeError>)
    ensures
        (r is Ok) <==> header_ok(csv_data@),
        (r matches Err(e) && e is MissingHeader) <==> !header_ok(csv_data@),
        r matches Ok(v) ==> {
            let kept = aphis_kept_rows(header_of(csv_data@), data_rows(csv_data@));
            &&& v@.len() == kept.len()
            &&& forall|j: int|
                0 <= j < v@.len() ==> aphis_output_matches(
                    #[trigger] v@[j],
                    header_of(csv_data@),
                    kept[j],
                )
        },
{
    let ghost s = csv_data@;
    let rows = parse_rows(csv_data);
    let ghost dr = data_rows(s);
    if rows.len() == 0 {
        return Err(DecodeError::MissingHeader);
    }
    let header = match &rows[0] {
        Some(h) => h,
        None => {
            return Err(DecodeError::MissingHeader);
        },
    };
    let ghost h = header_of(s);
    proof {
        assert(header.deep_view() == h);
        assert(dr.len() == csv_rows(s).len() - 1);
    }
    let mut out: Vec<AphisReport> = Vec::new();
    let mut i: usize = 1;
    while i < rows.len()
        invariant
            s == csv_data@,
            1 <= i <= rows@.len(),
            rows.deep_view() == csv_rows(s),
            rows@.len() == csv_rows(s).len(),
            header_ok(s),
            h == header_of(s),
            header.deep_view() == h,
            dr == data_rows(s),
            dr.len() == csv_rows(s).len() - 1,
            out@.len() == aphis_kept_rows(h, dr.take(i - 1)).len(),
            forall|j: int|
                0 <= j < out@.len() ==> aphis_output_matches(
                    #[trigger] out@[j],
                    h,
                    aphis_kept_rows(h, dr.take(i - 1))[j],
                ),
        decreases rows@.len() - i,
    {
        let ghost kprev = aphis_kept_rows(h, dr.take(i - 1));
        proof {
            assert(dr[i - 1] == csv_rows(s)[i as int]);
            assert(rows.deep_view()[i as int] == rows@[i as int].deep_view());
            assert(dr.take(i as int).drop_last() =~= dr.take(i - 1));
            assert(dr.take(i as int).last() == dr[i - 1]);
        }
        match &rows[i] {
            Some(row) => {
                proof {
                    assert(dr[i - 1] is Some && dr[i - 1]->Some_0 == row.deep_view());
                }
                if row.len() == header.len() {
                    match aphis_from_row(header, row) {
                        Some(rec0) => {
                            let summary = get_tested_animals(&rec0);
                            let ghost rec0g = rec0;
                            let mut rec = rec0;
                            rec.animals_tested = Some(summary);
                            let ghost recg = rec;
                            out.push(rec);
                            proof {
                                assert(aphis_row_converts(h, dr[i - 1]));
                                assert(aphis_kept_rows(h, dr.take(i as int)) =~= kprev.push(
                                    dr[i - 1]->Some_0,
                                ));
                                assert(aphis_fields_match(recg, h, row.deep_view()));
                                assert(crate::registrant::tested_fires(recg)
                                    =~= crate::registrant::tested_fires(rec0g));
                                assert(crate::registrant::tested_entry_table(recg)
                                    =~= crate::registrant::tested_entry_table(rec0g));
                                assert(tested_summary(recg) == tested_summary(rec0g));
                                assert(aphis_output_matches(recg, h, dr[i - 1]->Some_0));
                                assert(out@[out@.len() - 1] == recg);
                            }
                        },
                        None => {
                            proof {
                                assert(!aphis_row_converts(h, dr[i - 1]));
                                assert(aphis_kept_rows(h, dr.take(i as int)) =~= kprev);
                            }
                        },
                    }
                } else {
                    proof {
                        assert(!aphis_row_converts(h, dr[i - 1]));
                        assert(aphis_kept_rows(h, dr.take(i as int)) =~= kprev);
                    }
                }
            },
            None => {
                proof {
                    assert(!aphis_row_converts(h, dr[i - 1]));
                    assert(aphis_kept_rows(h, dr.take(i as int)) =~= kprev);
                }
            },
        }
        i = i + 1;
    }
    proof {
        assert(dr.take(rows@.len() - 1) =~= dr);
    }
    Ok(out)
}

/// A data row converts to an inspection record: well-formed, as wide as
/// the header, and every declared column present.
pub open spec fn inspection_row_converts(h: Seq<Seq<char>>, row: Option<Seq<Seq<char>>>) -> bool {
    &&& row is Some
    &&& row->Some_0.len() == h.len()
    &&& inspection_cols_present(h, row->Some_0)
}

/// Decodes the inspection dataset strictly: every data row must convert,
/// and each yields exactly one record as it stands, in dataset order.
pub fn read_inspection_reports_from_csv(csv_data: &str) -> (r: Result<
    Vec<InspectionReport>,
    DecodeError,
>)
    ensures
        (r is Ok) <==> (header_ok(csv_data@) && (forall|i: int|
            0 <= i < data_rows(csv_data@).len() ==> inspection_row_converts(
                header_of(csv_data@),
                #[trigger] data_rows(csv_data@)[i],
            ))),
        (r matches Err(e) && e is MissingHeader) <==> !header_ok(csv_data@),
        (r matches Err(e) && e is BadRow) <==> (header_ok(csv_data@) && (exists|i: int|
            0 <= i < data_rows(csv_data@).len() && !inspection_row_converts(
                header_of(csv_data@),
                #[trigger] data_rows(csv_data@)[i],
            ))),
        r matches Ok(v) ==> {
            &&& v@.len() == data_rows(csv_data@).len()
            &&& forall|j: int|
                0 <= j < v@.len() ==> inspection_matches(
                    #[trigger] v@[j],
                    header_of(csv_data@),
                    data_rows(csv_data@)[j]->Some_0,
                )
        },
{
    let ghost s = csv_data@;
    let rows = parse_rows(csv_data);
    let ghost dr = data_rows(s);
    if rows.len() == 0 {
        return Err(DecodeError::MissingHeader);
    }
    let header = match &rows[0] {
        Some(h) => h,
        None => {
            return Err(DecodeError::MissingHeader);
        },
    };
    let ghost h = header_of(s);
    proof {
        assert(header.deep_view() == h);
        assert(dr.len() == csv_rows(s).len() - 1);
    }
    let mut out: Vec<InspectionReport> = Vec::new();
    let mut i: usize = 1;
    while i < rows.len()
        invariant
            s == csv_data@,
            1 <= i <= rows@.len(),
            rows.deep_view() == csv_rows(s),
            rows@.len() == csv_rows(s).len(),
            header_ok(s),
            h == header_of(s),
            header.deep_view() == h,
            dr == data_rows(s),
            dr.len() == csv_rows(s).len() - 1,
            out@.len() == i - 1,
            forall|j: int| 0 <= j < i - 1 ==> inspection_row_converts(h, #[trigger] dr[j]),
            forall|j: int|
                0 <= j < i - 1 ==> inspection_matches(#[trigger] out@[j], h, dr[j]->Some_0),
        decreases rows@.len() - i,
    {
        proof {
            assert(dr[i - 1] == csv_rows(s)[i as int]);
            assert(rows.deep_view()[i as int] == rows@[i as int].deep_view());
        }
        match &rows[i] {
            Some(row) => {
                proof {
                    assert(dr[i - 1] is Some && dr[i - 1]->Some_0 == row.deep_view());
                }
                if row.len() != header.len() {
                    proof {
                        assert(!inspection_row_converts(h, dr[i - 1]));
                    }
                    return Err(DecodeError::BadRow);
                }
                match inspection_from_row(header, row) {
                    Some(rec) => {
                        let ghost recg = rec;
                        out.push(rec);
                        proof {
                            assert(inspection_matches(recg, h, row.deep_view()));
                            assert(inspection_row_converts(h, dr[i - 1]));
                            assert(out@[i - 1] == recg);
                        }
                    },
                    None => {
                        proof {
                            assert(!inspection_row_converts(h, dr[i - 1]));
                        }
                        return Err(DecodeError::BadRow);
                    },
                }
            },
            None => {
                proof {
                    assert(!inspection_row_converts(h, dr[i - 1]));
                }
                return Err(DecodeError::BadRow);
            },
        }
        i = i + 1;
    }
    Ok(out)
}

} // verus!
