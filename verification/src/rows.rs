//! The shared tabular decode contract: delimited text with a header row,
//! comma-separated fields, quoted fields (with doubled-quote escapes,
//! embedded separators and line breaks), and records split on line
//! breaks. Blank lines are skipped. A structural fault — a quote opened
//! and never closed, a stray quote inside or after a field — spoils only
//! the row it occurs in; the rest of the dataset still decodes.
//!
//! The decoder is a character-level state machine. Its meaning is the
//! spec-level fold `csv_fold` of `csv_step` over the text; `parse_rows`
//! is proved to compute exactly that.

use vstd::prelude::*;

use crate::strutil::{push_char, str_eq};

verus! {

/// The position of the scan inside the dataset text.
#[derive(PartialEq, Eq, Structural, Clone, Copy)]
pub enum CsvMode {
    /// Before a record: at the start of the text, or just after a record
    /// terminator.
    RecordStart,
    /// Just after a field separator: a record is open, a field begins.
    FieldStart,
    /// Inside an unquoted field.
    Unquoted,
    /// Inside a quoted field, after the opening quote.
    Quoted,
    /// Just after the closing quote of a quoted field.
    QuoteEnd,
    /// Just after a carriage return that ended a record.
    AfterCr,
    /// Inside a structurally faulty row; characters are discarded until
    /// the row ends.
    BadRow,
}

/// The whole state of the scan: the finished rows (a malformed row is
/// `None`), the open record, the open field, and the mode.
#[verifier::ext_equal]
pub struct CsvState {
    pub rows: Seq<Option<Seq<Seq<char>>>>,
    pub cur_row: Seq<Seq<char>>,
    pub cur_field: Seq<char>,
    pub mode: CsvMode,
}

pub open spec fn csv_init() -> CsvState {
    CsvState {
        rows: Seq::empty(),
        cur_row: Seq::empty(),
        cur_field: Seq::empty(),
        mode: CsvMode::RecordStart,
    }
}

/// One finished record appended to the rows.
pub open spec fn csv_flush(st: CsvState, mode: CsvMode) -> CsvState {
    CsvState {
        rows: st.rows.push(Some(st.cur_row.push(st.cur_field))),
        cur_row: Seq::empty(),
        cur_field: Seq::empty(),
        mode,
    }
}

/// One step of the scan.
pub open spec fn csv_step(st: CsvState, c: char) -> CsvState {
    match st.mode {
        CsvMode::RecordStart => {
            if c == '\n' {
                st
            } else if c == '\r' {
                CsvState { mode: CsvMode::AfterCr, ..st }
            } else if c == ',' {
                CsvState {
                    cur_row: st.cur_row.push(Seq::empty()),
                    mode: CsvMode::FieldStart,
                    ..st
                }
            } else if c == '"' {
                CsvState { mode: CsvMode::Quoted, ..st }
            } else {
                CsvState { cur_field: st.cur_field.push(c), mode: CsvMode::Unquoted, ..st }
            }
        },
        CsvMode::FieldStart => {
            if c == ',' {
                CsvState { cur_row: st.cur_row.push(st.cur_field), cur_field: Seq::empty(), ..st }
            } else if c == '\n' {
                csv_flush(st, CsvMode::RecordStart)
            } else if c == '\r' {
                csv_flush(st, CsvMode::AfterCr)
            } else if c == '"' {
                CsvState { mode: CsvMode::Quoted, ..st }
            } else {
                CsvState { cur_field: st.cur_field.push(c), mode: CsvMode::Unquoted, ..st }
            }
        },
        CsvMode::Unquoted => {
            if c == ',' {
                CsvState {
                    cur_row: st.cur_row.push(st.cur_field),
                    cur_field: Seq::empty(),
                    mode: CsvMode::FieldStart,
                    ..st
                }
            } else if c == '\n' {
                csv_flush(st, CsvMode::RecordStart)
            } else if c == '\r' {
                csv_flush(st, CsvMode::AfterCr)
            } else if c == '"' {
                CsvState {
                    cur_row: Seq::empty(),
                    cur_field: Seq::empty(),
                    mode: CsvMode::BadRow,
                    ..st
                }
            } else {
                CsvState { cur_field: st.cur_field.push(c), ..st }
            }
        },
        CsvMode::Quoted => {
            if c == '"' {
                CsvState { mode: CsvMode::QuoteEnd, ..st }
            } else {
                CsvState { cur_field: st.cur_field.push(c), ..st }
            }
        },
        CsvMode::QuoteEnd => {
            if c == '"' {
                CsvState { cur_field: st.cur_field.push('"'), mode: CsvMode::Quoted, ..st }
            } else if c == ',' {
                CsvState {
                    cur_row: st.cur_row.push(st.cur_field),
                    cur_field: Seq::empty(),
                    mode: CsvMode::FieldStart,
                    ..st
                }
            } else if c == '\n' {
                csv_flush(st, CsvMode::RecordStart)
            } else if c == '\r' {
                csv_flush(st, CsvMode::AfterCr)
            } else {
                CsvState {
                    cur_row: Seq::empty(),
                    cur_field: Seq::empty(),
                    mode: CsvMode::BadRow,
                    ..st
                }
            }
        },
        CsvMode::AfterCr => {
            if c == '\n' {
                CsvState { mode: CsvMode::RecordStart, ..st }
            } else if c == '\r' {
                st
            } else if c == ',' {
                CsvState {
                    cur_row: st.cur_row.push(Seq::empty()),
                    mode: CsvMode::FieldStart,
                    ..st
                }
            } else if c == '"' {
                CsvState { mode: CsvMode::Quoted, ..st }
            } else {
                CsvState { cur_field: st.cur_field.push(c), mode: CsvMode::Unquoted, ..st }
            }
        },
        CsvMode::BadRow => {
            if c == '\n' {
                CsvState { rows: st.rows.push(None), mode: CsvMode::RecordStart, ..st }
            } else if c == '\r' {
                CsvState { rows: st.rows.push(None), mode: CsvMode::AfterCr, ..st }
            } else {
                st
            }
        },
    }
}

/// The scan state after reading the whole text.
pub open spec fn csv_fold(s: Seq<char>) -> CsvState
    decreases s.len(),
{
    if s.len() == 0 {
        csv_init()
    } else {
        csv_step(csv_fold(s.drop_last()), s.last())
    }
}

/// The rows once the text ends: an open record is flushed; an open quote
/// or a faulty row ends as a malformed row.
pub open spec fn csv_finish(st: CsvState) -> Seq<Option<Seq<Seq<char>>>> {
    match st.mode {
        CsvMode::RecordStart => st.rows,
        CsvMode::AfterCr => st.rows,
        CsvMode::FieldStart => st.rows.push(Some(st.cur_row.push(st.cur_field))),
        CsvMode::Unquoted => st.rows.push(Some(st.cur_row.push(st.cur_field))),
        CsvMode::QuoteEnd => st.rows.push(Some(st.cur_row.push(st.cur_field))),
        CsvMode::Quoted => st.rows.push(None),
        CsvMode::BadRow => st.rows.push(None),
    }
}

/// The decoded rows of a dataset text: each row either its fields in
/// order, or `None` where the row is structurally malformed.
pub open spec fn csv_rows(s: Seq<char>) -> Seq<Option<Seq<Seq<char>>>> {
    csv_finish(csv_fold(s))
}

/// Decodes a dataset text into rows of fields; a malformed row decodes
/// to `None`.
pub fn parse_rows(text: &str) -> (rows: Vec<Option<Vec<String>>>)
    ensures
        rows.deep_view() == csv_rows(text@),
{
    let n = text.unicode_len();
    let mut rows: Vec<Option<Vec<String>>> = Vec::new();
    let mut cur_row: Vec<String> = Vec::new();
    let mut cur_field = String::new();
    let mut mode = CsvMode::RecordStart;
    let mut i: usize = 0;
    proof {
        assert(csv_fold(text@.take(0)) =~~= (CsvState {
            rows: rows.deep_view(),
            cur_row: cur_row.deep_view(),
            cur_field: cur_field@,
            mode,
        }));
    }
    while i < n
        invariant
            i <= n,
            n == text@.len(),
            csv_fold(text@.take(i as int)) == (CsvState {
                rows: rows.deep_view(),
                cur_row: cur_row.deep_view(),
                cur_field: cur_field@,
                mode,
            }),
        decreases n - i,
    {
        let ghost st = csv_fold(text@.take(i as int));
        let c = text.get_char(i);
        proof {
            assert(text@.take(i + 1).drop_last() =~= text@.take(i as int));
            assert(text@.take(i + 1).last() == text@[i as int]);
        }
        match mode {
            CsvMode::RecordStart => {
                if c == '\n' {
                } else if c == '\r' {
                    mode = CsvMode::AfterCr;
                } else if c == ',' {
                    cur_row.push(String::new());
                    proof {
                        assert(cur_row.deep_view() =~= st.cur_row.push(Seq::empty()));
                    }
                    mode = CsvMode::FieldStart;
                } else if c == '"' {
                    mode = CsvMode::Quoted;
                } else {
                    push_char(&mut cur_field, c);
                    mode = CsvMode::Unquoted;
                }
            },
            CsvMode::FieldStart => {
                if c == ',' {
                    let f = cur_field;
                    cur_field = String::new();
                    cur_row.push(f);
                    proof {
                        assert(cur_row.deep_view() =~= st.cur_row.push(st.cur_field));
                    }
                } else if c == '\n' || c == '\r' {
                    let f = cur_field;
                    cur_field = String::new();
                    let mut r = cur_row;
                    cur_row = Vec::new();
                    r.push(f);
                    let ghost rv = r.deep_view();
                    rows.push(Some(r));
                    proof {
                        assert(rv =~= st.cur_row.push(st.cur_field));
                        assert(rows.deep_view() =~= st.rows.push(Some(rv)));
                    }
                    mode = if c == '\n' {
                        CsvMode::RecordStart
                    } else {
                        CsvMode::AfterCr
                    };
                } else if c == '"' {
                    mode = CsvMode::Quoted;
                } else {
                    push_char(&mut cur_field, c);
                    mode = CsvMode::Unquoted;
                }
            },
            CsvMode::Unquoted => {
                if c == ',' {
                    let f = cur_field;
                    cur_field = String::new();
                    cur_row.push(f);
                    proof {
                        assert(cur_row.deep_view() =~= st.cur_row.push(st.cur_field));
                    }
                    mode = CsvMode::FieldStart;
                } else if c == '\n' || c == '\r' {
                    let f = cur_field;
                    cur_field = String::new();
                    let mut r = cur_row;
                    cur_row = Vec::new();
                    r.push(f);
                    let ghost rv = r.deep_view();
                    rows.push(Some(r));
                    proof {
                        assert(rv =~= st.cur_row.push(st.cur_field));
                        assert(rows.deep_view() =~= st.rows.push(Some(rv)));
                    }
                    mode = if c == '\n' {
                        CsvMode::RecordStart
                    } else {
                        CsvMode::AfterCr
                    };
                } else if c == '"' {
                    cur_row = Vec::new();
                    cur_field = String::new();
                    mode = CsvMode::BadRow;
                } else {
                    push_char(&mut cur_field, c);
                }
            },
            CsvMode::Quoted => {
                if c == '"' {
                    mode = CsvMode::QuoteEnd;
                } else {
                    push_char(&mut cur_field, c);
                }
            },
            CsvMode::QuoteEnd => {
                if c == '"' {
                    push_char(&mut cur_field, '"');
                    mode = CsvMode::Quoted;
                } else if c == ',' {
                    let f = cur_field;
                    cur_field = String::new();
                    cur_row.push(f);
                    proof {
                        assert(cur_row.deep_view() =~= st.cur_row.push(st.cur_field));
                    }
                    mode = CsvMode::FieldStart;
                } else if c == '\n' || c == '\r' {
                    let f = cur_field;
                    cur_field = String::new();
                    let mut r = cur_row;
                    cur_row = Vec::new();
                    r.push(f);
                    let ghost rv = r.deep_view();
                    rows.push(Some(r));
                    proof {
                        assert(rv =~= st.cur_row.push(st.cur_field));
                        assert(rows.deep_view() =~= st.rows.push(Some(rv)));
                    }
                    mode = if c == '\n' {
                        CsvMode::RecordStart
                    } else {
                        CsvMode::AfterCr
                    };
                } else {
                    cur_row = Vec::new();
                    cur_field = String::new();
                    mode = CsvMode::BadRow;
                }
            },
            CsvMode::AfterCr => {
                if c == '\n' {
                    mode = CsvMode::RecordStart;
                } else if c == '\r' {
                } else if c == ',' {
                    cur_row.push(String::new());
                    proof {
                        assert(cur_row.deep_view() =~= st.cur_row.push(Seq::empty()));
                    }
                    mode = CsvMode::FieldStart;
                } else if c == '"' {
                    mode = CsvMode::Quoted;
                } else {
                    push_char(&mut cur_field, c);
                    mode = CsvMode::Unquoted;
                }
            },
            CsvMode::BadRow => {
                if c == '\n' || c == '\r' {
                    rows.push(None);
                    proof {
                        assert(rows.deep_view() =~= st.rows.push(
                            None::<Seq<Seq<char>>>,
                        ));
                    }
                    mode = if c == '\n' {
                        CsvMode::RecordStart
                    } else {
                        CsvMode::AfterCr
                    };
                }
            },
        }
        proof {
            assert(csv_fold(text@.take(i + 1)) =~~= (CsvState {
                rows: rows.deep_view(),
                cur_row: cur_row.deep_view(),
                cur_field: cur_field@,
                mode,
            }));
        }
        i = i + 1;
    }
    proof {
        assert(text@.take(n as int) =~= text@);
    }
    let ghost st = csv_fold(text@);
    match mode {
        CsvMode::RecordStart | CsvMode::AfterCr => rows,
        CsvMode::FieldStart | CsvMode::Unquoted | CsvMode::QuoteEnd => {
            let f = cur_field;
            let mut r = cur_row;
            r.push(f);
            let ghost rv = r.deep_view();
            rows.push(Some(r));
            proof {
                assert(rv =~= st.cur_row.push(st.cur_field));
                assert(rows.deep_view() =~= st.rows.push(Some(rv)));
            }
            rows
        },
        CsvMode::Quoted | CsvMode::BadRow => {
            rows.push(None);
            proof {
                assert(rows.deep_view() =~= st.rows.push(None::<Seq<Seq<char>>>));
            }
            rows
        },
    }
}

/// The position of the first header column named `name`, if any.
pub open spec fn find_col(header: Seq<Seq<char>>, name: Seq<char>) -> Option<int>
    decreases header.len(),
{
    if header.len() == 0 {
        None
    } else if header[0] == name {
        Some(0)
    } else {
        match find_col(header.drop_first(), name) {
            Some(i) => Some(i + 1),
            None => None,
        }
    }
}

/// The field of `row` under the header column named `name`: the value at
/// the first matching column position, if the row reaches it.
pub open spec fn lookup(header: Seq<Seq<char>>, row: Seq<Seq<char>>, name: Seq<char>) -> Option<
    Seq<char>,
> {
    match find_col(header, name) {
        Some(i) => if i < row.len() {
            Some(row[i])
        } else {
            None
        },
        None => None,
    }
}

proof fn lemma_find_col_range(header: Seq<Seq<char>>, name: Seq<char>)
    ensures
        match find_col(header, name) {
            Some(i) => 0 <= i < header.len() && header[i] == name && (forall|j: int|
                0 <= j < i ==> header[j] != name),
            None => forall|j: int| 0 <= j < header.len() ==> header[j] != name,
        },
    decreases header.len(),
{
    if header.len() > 0 && header[0] != name {
        let tail = header.drop_first();
        lemma_find_col_range(tail, name);
        match find_col(tail, name) {
            Some(i) => {
                assert(header[i + 1] == tail[i]);
                assert forall|j: int| 0 <= j < i + 1 implies header[j] != name by {
                    if j > 0 {
                        assert(tail[j - 1] != name);
                        assert(header[j] == tail[j - 1]);
                    }
                }
            },
            None => {
                assert forall|j: int| 0 <= j < header.len() implies header[j] != name by {
                    if j > 0 {
                        assert(tail[j - 1] != name);
                        assert(header[j] == tail[j - 1]);
                    }
                }
            },
        }
    }
}

/// Looks a field up by exact column name.
pub fn get_field(header: &Vec<String>, row: &Vec<String>, name: &str) -> (r: Option<String>)
    ensures
        r.deep_view() == lookup(header.deep_view(), row.deep_view(), name@),
{
    let ghost h = header.deep_view();
    let mut i: usize = 0;
    while i < header.len()
        invariant
            i <= h.len(),
            h == header.deep_view(),
            h.len() == header@.len(),
            forall|j: int| 0 <= j < i ==> h[j] != name@,
        decreases h.len() - i,
    {
        if str_eq(header[i].as_str(), name) {
            proof {
                lemma_find_col_range(h, name@);
                let k = find_col(h, name@);
                assert(k matches Some(p) && p == i) by {
                    assert(h[i as int] == name@);
                }
            }
            if i < row.len() {
                return Some(row[i].clone());
            } else {
                return None;
            }
        }
        i = i + 1;
    }
    proof {
        lemma_find_col_range(h, name@);
        assert(find_col(h, name@) is None);
    }
    None
}

} // verus!
