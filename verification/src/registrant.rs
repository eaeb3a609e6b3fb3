//! Registrant records: one row per APHIS-registered animal-use facility
//! per reporting year, with ~10 textual species-count fields, and the
//! derived `animals_tested` summary computed from them.
//!
//! A count field holds free text. It contributes to the summary exactly
//! when it parses as an optionally signed decimal number greater than
//! zero; the rendered count is the value truncated toward zero. Text that
//! does not conform is treated as "no animals", never as an error.

use vstd::prelude::*;

use crate::pick::{picked, lemma_picked_empty_iff, lemma_picked_contains};
use crate::strutil::{join_with, join_comma, push_char, lemma_join_first_char};
use crate::rows::{lookup, get_field};

verus! {

/// One row of the registrant dataset. Count fields keep the source text;
/// the geocode fields keep the source text unparsed. `animals_tested`
/// carries the derived summary once the pipeline has filled it in.
#[derive(Default, Debug)]
pub struct AphisReport {
    pub account_name: String,
    pub customer_number_x: String,
    pub certificate_number: String,
    pub registration_type: String,
    pub certificate_status: String,
    pub status_date: String,
    pub address_line_1: String,
    pub address_line_2: String,
    pub city_state_zip: String,
    pub county: String,
    pub customer_number_y: String,
    pub year: String,
    pub dogs: String,
    pub cats: String,
    pub guinea_pigs: String,
    pub hamsters: String,
    pub rabbits: String,
    pub non_human_primates: String,
    pub sheep: String,
    pub pigs: String,
    pub other_farm_animals: String,
    pub all_other_animals: String,
    pub latitude: String,
    pub longitude: String,
    pub animals_tested: Option<String>,
}

/// The number of species-count fields of a registrant record.
pub const NUM_SPECIES: usize = 10;

pub open spec fn is_ascii_digit(c: char) -> bool {
    '0' <= c && c <= '9'
}

pub open spec fn all_digits(s: Seq<char>) -> bool {
    forall|i: int| 0 <= i < s.len() ==> is_ascii_digit(#[trigger] s[i])
}

/// The state of the tolerant decimal scan: whether the text so far still
/// conforms, what kinds of characters were seen, and the digits of the
/// integer part collected so far.
pub struct NumScan {
    pub ok: bool,
    pub seen_digit: bool,
    pub seen_nonzero: bool,
    pub in_frac: bool,
    pub neg: bool,
    pub started: bool,
    pub int_digits: Seq<char>,
}

pub open spec fn num_scan_init() -> NumScan {
    NumScan {
        ok: true,
        seen_digit: false,
        seen_nonzero: false,
        in_frac: false,
        neg: false,
        started: false,
        int_digits: Seq::empty(),
    }
}

/// One step of the decimal scan. The accepted shape is an optional
/// leading sign, then digits with at most one decimal point anywhere
/// among them, with at least one digit overall.
pub open spec fn num_step(st: NumScan, c: char) -> NumScan {
    if !st.ok {
        st
    } else if is_ascii_digit(c) {
        NumScan {
            seen_digit: true,
            seen_nonzero: st.seen_nonzero || c != '0',
            int_digits: if !st.in_frac {
                st.int_digits.push(c)
            } else {
                st.int_digits
            },
            started: true,
            ..st
        }
    } else if c == '.' {
        if st.in_frac {
            NumScan { ok: false, ..st }
        } else {
            NumScan { in_frac: true, started: true, ..st }
        }
    } else if c == '+' || c == '-' {
        if st.started {
            NumScan { ok: false, ..st }
        } else {
            NumScan { neg: c == '-', started: true, ..st }
        }
    } else {
        NumScan { ok: false, ..st }
    }
}

/// The scan state after reading the whole text.
pub open spec fn num_scan(s: Seq<char>) -> NumScan
    decreases s.len(),
{
    if s.len() == 0 {
        num_scan_init()
    } else {
        num_step(num_scan(s.drop_last()), s.last())
    }
}

/// The text parses as a decimal number strictly greater than zero.
pub open spec fn count_positive(s: Seq<char>) -> bool {
    let st = num_scan(s);
    st.ok && st.seen_digit && !st.neg && st.seen_nonzero
}

/// The digits with leading zeros removed.
pub open spec fn strip_leading_zeros(d: Seq<char>) -> Seq<char>
    decreases d.len(),
{
    if d.len() > 0 && d[0] == '0' {
        strip_leading_zeros(d.drop_first())
    } else {
        d
    }
}

/// The decimal rendering of the digits read as an integer: leading zeros
/// removed, or "0" when no nonzero digit remains.
pub open spec fn trunc_render(d: Seq<char>) -> Seq<char> {
    let z = strip_leading_zeros(d);
    if z.len() == 0 {
        "0"@
    } else {
        z
    }
}

/// One summary entry: the truncated count, a space, and the species name.
pub open spec fn count_entry(s: Seq<char>, name: Seq<char>) -> Seq<char> {
    trunc_render(num_scan(s).int_digits) + " "@ + name
}

proof fn lemma_strip_zeros_skip(d: Seq<char>, i: int)
    requires
        0 <= i <= d.len(),
        forall|j: int| 0 <= j < i ==> d[j] == '0',
        i < d.len() ==> d[i] != '0',
    ensures
        strip_leading_zeros(d) == d.skip(i),
    decreases i,
{
    if i == 0 {
        assert(d.skip(0) =~= d);
    } else {
        assert(d[0] == '0');
        lemma_strip_zeros_skip(d.drop_first(), i - 1);
        assert(d.drop_first().skip(i - 1) =~= d.skip(i));
    }
}

/// Removes leading zeros of a digit string; "0" when nothing remains.
fn render_trunc(d: &str) -> (r: String)
    ensures
        r@ == trunc_render(d@),
{
    let n = d.unicode_len();
    let mut i: usize = 0;
    while i < n && d.get_char(i) == '0'
        invariant
            i <= n,
            n == d@.len(),
            forall|j: int| 0 <= j < i ==> d@[j] == '0',
        decreases n - i,
    {
        i = i + 1;
    }
    proof {
        lemma_strip_zeros_skip(d@, i as int);
    }
    if i == n {
        proof {
            assert(d@.skip(n as int) =~= Seq::<char>::empty());
        }
        String::from_str("0")
    } else {
        let sub = d.substring_char(i, n);
        proof {
            assert(d@.subrange(i as int, n as int) =~= d@.skip(i as int));
        }
        sub.to_owned()
    }
}

/// Parses one species-count field. Returns the rendered truncated count
/// exactly when the text conforms and its value is greater than zero.
pub fn parse_positive_count(s: &str) -> (r: Option<String>)
    ensures
        (r is Some) <==> count_positive(s@),
        r matches Some(d) ==> d@ == trunc_render(num_scan(s@).int_digits),
{
    let n = s.unicode_len();
    let mut ok = true;
    let mut seen_digit = false;
    let mut seen_nonzero = false;
    let mut in_frac = false;
    let mut neg = false;
    let mut started = false;
    let mut digits = String::new();
    let mut i: usize = 0;
    while i < n
        invariant
            i <= n,
            n == s@.len(),
            num_scan(s@.take(i as int)) == (NumScan {
                ok,
                seen_digit,
                seen_nonzero,
                in_frac,
                neg,
                started,
                int_digits: digits@,
            }),
        decreases n - i,
    {
        let c = s.get_char(i);
        proof {
            assert(s@.take(i + 1).drop_last() =~= s@.take(i as int));
            assert(s@.take(i + 1).last() == s@[i as int]);
        }
        if ok {
            if c >= '0' && c <= '9' {
                seen_digit = true;
                if c != '0' {
                    seen_nonzero = true;
                }
                if !in_frac {
                    push_char(&mut digits, c);
                }
                started = true;
            } else if c == '.' {
                if in_frac {
                    ok = false;
                } else {
                    in_frac = true;
                    started = true;
                }
            } else if c == '+' || c == '-' {
                if started {
                    ok = false;
                } else {
                    neg = c == '-';
                    started = true;
                }
            } else {
                ok = false;
            }
        }
        i = i + 1;
    }
    proof {
        assert(s@.take(n as int) =~= s@);
    }
    if ok && seen_digit && !neg && seen_nonzero {
        Some(render_trunc(digits.as_str()))
    } else {
        None
    }
}

/// The view of species-count field `i`, in field-declaration order.
pub open spec fn species_count(r: AphisReport, i: int) -> Seq<char> {
    if i == 0 {
        r.dogs@
    } else if i == 1 {
        r.cats@
    } else if i == 2 {
        r.guinea_pigs@
    } else if i == 3 {
        r.hamsters@
    } else if i == 4 {
        r.rabbits@
    } else if i == 5 {
        r.non_human_primates@
    } else if i == 6 {
        r.sheep@
    } else if i == 7 {
        r.pigs@
    } else if i == 8 {
        r.other_farm_animals@
    } else if i == 9 {
        r.all_other_animals@
    } else {
        Seq::empty()
    }
}

/// The output name of species `i`.
pub open spec fn species_name(i: int) -> Seq<char> {
    if i == 0 {
        "Dogs"@
    } else if i == 1 {
        "Cats"@
    } else if i == 2 {
        "Guinea Pigs"@
    } else if i == 3 {
        "Hamsters"@
    } else if i == 4 {
        "Rabbits"@
    } else if i == 5 {
        "Non-Human Primates"@
    } else if i == 6 {
        "Sheep"@
    } else if i == 7 {
        "Pigs"@
    } else if i == 8 {
        "Other Farm Animals"@
    } else if i == 9 {
        "All Other Animals"@
    } else {
        Seq::empty()
    }
}

pub open spec fn tested_fires(r: AphisReport) -> Seq<bool> {
    Seq::new(NUM_SPECIES as nat, |i: int| count_positive(species_count(r, i)))
}

/// The entry contributed by species `i`, or the empty string where its
/// count is not positive (such an entry is never emitted).
pub open spec fn tested_entry_at(r: AphisReport, i: int) -> Seq<char> {
    if count_positive(species_count(r, i)) {
        count_entry(species_count(r, i), species_name(i))
    } else {
        Seq::empty()
    }
}

pub open spec fn tested_entry_table(r: AphisReport) -> Seq<Seq<char>> {
    Seq::new(NUM_SPECIES as nat, |i: int| tested_entry_at(r, i))
}

/// The entries of `animals_tested`: one per species field whose text
/// parses to a positive count, in field-declaration order.
pub open spec fn tested_entries(r: AphisReport) -> Seq<Seq<char>> {
    picked(tested_fires(r), tested_entry_table(r))
}

/// The derived `animals_tested` summary: the positive-count entries,
/// comma-and-space joined, or the sentinel "Unknown" when none qualify.
pub open spec fn tested_summary(r: AphisReport) -> Seq<char> {
    if tested_entries(r).len() == 0 {
        "Unknown"@
    } else {
        join_with(tested_entries(r), ", "@)
    }
}

/// Species-count field `i` of the record.
fn species_count_at<'a>(report: &'a AphisReport, i: usize) -> (r: &'a String)
    requires
        i < NUM_SPECIES,
    ensures
        r@ == species_count(*report, i as int),
{
    if i == 0 {
        &report.dogs
    } else if i == 1 {
        &report.cats
    } else if i == 2 {
        &report.guinea_pigs
    } else if i == 3 {
        &report.hamsters
    } else if i == 4 {
        &report.rabbits
    } else if i == 5 {
        &report.non_human_primates
    } else if i == 6 {
        &report.sheep
    } else if i == 7 {
        &report.pigs
    } else if i == 8 {
        &report.other_farm_animals
    } else {
        &report.all_other_animals
    }
}

/// The output name of species `i`.
fn species_name_at(i: usize) -> (r: String)
    requires
        i < NUM_SPECIES,
    ensures
        r@ == species_name(i as int),
{
    if i == 0 {
        String::from_str("Dogs")
    } else if i == 1 {
        String::from_str("Cats")
    } else if i == 2 {
        String::from_str("Guinea Pigs")
    } else if i == 3 {
        String::from_str("Hamsters")
    } else if i == 4 {
        String::from_str("Rabbits")
    } else if i == 5 {
        String::from_str("Non-Human Primates")
    } else if i == 6 {
        String::from_str("Sheep")
    } else if i == 7 {
        String::from_str("Pigs")
    } else if i == 8 {
        String::from_str("Other Farm Animals")
    } else {
        String::from_str("All Other Animals")
    }
}

/// Derives the `animals_tested` summary string of a registrant record.
pub fn get_tested_animals(report: &AphisReport) -> (r: String)
    ensures
        r@ == tested_summary(*report),
{
    let ghost fires = tested_fires(*report);
    let ghost table = tested_entry_table(*report);
    let mut entries: Vec<String> = Vec::new();
    let mut i: usize = 0;
    proof {
        assert(entries.deep_view() =~= picked(fires.take(0), table.take(0)));
    }
    while i < NUM_SPECIES
        invariant
            i <= NUM_SPECIES,
            fires == tested_fires(*report),
            table == tested_entry_table(*report),
            entries.deep_view() == picked(fires.take(i as int), table.take(i as int)),
        decreases NUM_SPECIES - i,
    {
        let ghost prev = entries.deep_view();
        let cnt = species_count_at(report, i);
        match parse_positive_count(cnt.as_str()) {
            Some(d) => {
                let mut e = d;
                e.append(" ");
                let name = species_name_at(i);
                e.append(name.as_str());
                let ghost ev = e@;
                entries.push(e);
                proof {
                    assert(fires[i as int]);
                    assert(ev == table[i as int]);
                    assert(entries.deep_view() =~= prev.push(table[i as int]));
                }
            },
            None => {
                proof {
                    assert(!fires[i as int]);
                }
            },
        }
        proof {
            assert(fires.take(i + 1).drop_last() =~= fires.take(i as int));
            assert(table.take(i + 1).take(i as int) =~= table.take(i as int));
            assert(fires.take(i + 1).last() == fires[i as int]);
            assert(table.take(i + 1)[i as int] == table[i as int]);
            assert(entries.deep_view() =~= picked(fires.take(i + 1), table.take(i + 1)));
        }
        i = i + 1;
    }
    proof {
        assert(fires.take(NUM_SPECIES as int) =~= fires);
        assert(table.take(NUM_SPECIES as int) =~= table);
    }
    if entries.is_empty() {
        proof {
            assert(entries.deep_view().len() == 0);
        }
        String::from_str("Unknown")
    } else {
        join_comma(&entries)
    }
}

/// No species-count field of the record parses to a positive number.
pub open spec fn no_positive_count(r: AphisReport) -> bool {
    &&& !count_positive(r.dogs@)
    &&& !count_positive(r.cats@)
    &&& !count_positive(r.guinea_pigs@)
    &&& !count_positive(r.hamsters@)
    &&& !count_positive(r.rabbits@)
    &&& !count_positive(r.non_human_primates@)
    &&& !count_positive(r.sheep@)
    &&& !count_positive(r.pigs@)
    &&& !count_positive(r.other_farm_animals@)
    &&& !count_positive(r.all_other_animals@)
}

/// The collected integer-part digits are digits.
proof fn lemma_num_scan_digits(s: Seq<char>)
    ensures
        all_digits(num_scan(s).int_digits),
    decreases s.len(),
{
    if s.len() > 0 {
        lemma_num_scan_digits(s.drop_last());
        let prev = num_scan(s.drop_last()).int_digits;
        let c = s.last();
        if num_scan(s).int_digits == prev.push(c) {
            assert(forall|i: int|
                0 <= i < prev.len() ==> prev.push(c)[i] == #[trigger] prev[i]);
        }
    }
}

/// The truncated rendering is nonempty and starts with a digit.
proof fn lemma_trunc_render_digit(d: Seq<char>)
    requires
        all_digits(d),
    ensures
        trunc_render(d).len() > 0,
        is_ascii_digit(trunc_render(d)[0]),
    decreases d.len(),
{
    reveal_strlit("0");
    if d.len() > 0 && d[0] == '0' {
        assert(forall|i: int|
            0 <= i < d.drop_first().len() ==> #[trigger] d.drop_first()[i] == d[i + 1]);
        lemma_trunc_render_digit(d.drop_first());
    }
}

/// The `animals_tested` summary is the sentinel "Unknown" exactly when no
/// species-count field parses to a positive number.
pub proof fn lemma_tested_unknown_iff(r: AphisReport)
    ensures
        (tested_summary(r) == "Unknown"@) <==> no_positive_count(r),
{
    let fires = tested_fires(r);
    let table = tested_entry_table(r);
    lemma_picked_empty_iff(fires, table);
    assert((forall|i: int| 0 <= i < NUM_SPECIES ==> !(#[trigger] fires[i])) <==> no_positive_count(
        r,
    )) by {
        assert(fires[0] == count_positive(r.dogs@));
        assert(fires[1] == count_positive(r.cats@));
        assert(fires[2] == count_positive(r.guinea_pigs@));
        assert(fires[3] == count_positive(r.hamsters@));
        assert(fires[4] == count_positive(r.rabbits@));
        assert(fires[5] == count_positive(r.non_human_primates@));
        assert(fires[6] == count_positive(r.sheep@));
        assert(fires[7] == count_positive(r.pigs@));
        assert(fires[8] == count_positive(r.other_farm_animals@));
        assert(fires[9] == count_positive(r.all_other_animals@));
    }
    let entries = tested_entries(r);
    if entries.len() > 0 {
        lemma_picked_contains(fires, table, entries[0]);
        assert(entries.contains(entries[0]));
        let i = choose|i: int|
            0 <= i < fires.len() && #[trigger] fires[i] && table[i] == entries[0];
        let s = species_count(r, i);
        assert(table[i] == count_entry(s, species_name(i)));
        lemma_num_scan_digits(s);
        lemma_trunc_render_digit(num_scan(s).int_digits);
        let t = trunc_render(num_scan(s).int_digits);
        assert(entries[0][0] == t[0]) by {
            assert(entries[0] == t + " "@ + species_name(i));
            assert((t + " "@ + species_name(i))[0] == t[0]);
        }
        lemma_join_first_char(entries, ", "@);
        reveal_strlit("Unknown");
        assert(join_with(entries, ", "@)[0] == entries[0][0]);
        assert(!is_ascii_digit('U'));
        assert(tested_summary(r) != "Unknown"@);
    }
}


/// Every declared registrant column is present in the header and the row
/// reaches it; the summary column is optional.
pub open spec fn aphis_cols_present(h: Seq<Seq<char>>, r: Seq<Seq<char>>) -> bool {
    &&& lookup(h, r, "Account Name"@) is Some
    &&& lookup(h, r, "Customer Number_x"@) is Some
    &&& lookup(h, r, "Certificate Number"@) is Some
    &&& lookup(h, r, "Registration Type"@) is Some
    &&& lookup(h, r, "Certificate Status"@) is Some
    &&& lookup(h, r, "Status Date"@) is Some
    &&& lookup(h, r, "Address Line 1"@) is Some
    &&& lookup(h, r, "Address Line 2"@) is Some
    &&& lookup(h, r, "City-State-Zip"@) is Some
    &&& lookup(h, r, "County"@) is Some
    &&& lookup(h, r, "Customer Number_y"@) is Some
    &&& lookup(h, r, "Year"@) is Some
    &&& lookup(h, r, "Dogs"@) is Some
    &&& lookup(h, r, "Cats"@) is Some
    &&& lookup(h, r, "Guinea Pigs"@) is Some
    &&& lookup(h, r, "Hamsters"@) is Some
    &&& lookup(h, r, "Rabbits"@) is Some
    &&& lookup(h, r, "Non-Human Primates"@) is Some
    &&& lookup(h, r, "Sheep"@) is Some
    &&& lookup(h, r, "Pigs"@) is Some
    &&& lookup(h, r, "Other Farm Animals"@) is Some
    &&& lookup(h, r, "All Other Animals"@) is Some
    &&& lookup(h, r, "latitude"@) is Some
    &&& lookup(h, r, "longitude"@) is Some
}

/// Every plain field of the record equals its row value under the
/// matching header column.
pub open spec fn aphis_fields_match(a: AphisReport, h: Seq<Seq<char>>, r: Seq<Seq<char>>) -> bool {
    &&& lookup(h, r, "Account Name"@) == Some(a.account_name@)
    &&& lookup(h, r, "Customer Number_x"@) == Some(a.customer_number_x@)
    &&& lookup(h, r, "Certificate Number"@) == Some(a.certificate_number@)
    &&& lookup(h, r, "Registration Type"@) == Some(a.registration_type@)
    &&& lookup(h, r, "Certificate Status"@) == Some(a.certificate_status@)
    &&& lookup(h, r, "Status Date"@) == Some(a.status_date@)
    &&& lookup(h, r, "Address Line 1"@) == Some(a.address_line_1@)
    &&& lookup(h, r, "Address Line 2"@) == Some(a.address_line_2@)
    &&& lookup(h, r, "City-State-Zip"@) == Some(a.city_state_zip@)
    &&& lookup(h, r, "County"@) == Some(a.county@)
    &&& lookup(h, r, "Customer Number_y"@) == Some(a.customer_number_y@)
    &&& lookup(h, r, "Year"@) == Some(a.year@)
    &&& lookup(h, r, "Dogs"@) == Some(a.dogs@)
    &&& lookup(h, r, "Cats"@) == Some(a.cats@)
    &&& lookup(h, r, "Guinea Pigs"@) == Some(a.guinea_pigs@)
    &&& lookup(h, r, "Hamsters"@) == Some(a.hamsters@)
    &&& lookup(h, r, "Rabbits"@) == Some(a.rabbits@)
    &&& lookup(h, r, "Non-Human Primates"@) == Some(a.non_human_primates@)
    &&& lookup(h, r, "Sheep"@) == Some(a.sheep@)
    &&& lookup(h, r, "Pigs"@) == Some(a.pigs@)
    &&& lookup(h, r, "Other Farm Animals"@) == Some(a.other_farm_animals@)
    &&& lookup(h, r, "All Other Animals"@) == Some(a.all_other_animals@)
    &&& lookup(h, r, "latitude"@) == Some(a.latitude@)
    &&& lookup(h, r, "longitude"@) == Some(a.longitude@)
}

/// A freshly decoded record: the plain fields match the row, and the
/// summary field carries the optional source column as it stands.
pub open spec fn aphis_matches(a: AphisReport, h: Seq<Seq<char>>, r: Seq<Seq<char>>) -> bool {
    &&& aphis_fields_match(a, h, r)
    &&& a.animals_tested.deep_view() == lookup(h, r, "Animals Tested On"@)
}

/// Builds a registrant record from a decoded row under its header; fails
/// exactly when a declared column is missing from the header or the row.
#[verifier::rlimit(60)]
pub fn aphis_from_row(header: &Vec<String>, row: &Vec<String>) -> (res: Option<AphisReport>)
    ensures
        (res is Some) <==> aphis_cols_present(header.deep_view(), row.deep_view()),
        res matches Some(a) ==> aphis_matches(a, header.deep_view(), row.deep_view()),
{
    let account_name = match get_field(header, row, "Account Name") {
        Some(v) => v,
        None => { return None; },
    };
    let customer_number_x = match get_field(header, row, "Customer Number_x") {
        Some(v) => v,
        None => { return None; },
    };
    let certificate_number = match get_field(header, row, "Certificate Number") {
        Some(v) => v,
        None => { return None; },
    };
    let registration_type = match get_field(header, row, "Registration Type") {
        Some(v) => v,
        None => { return None; },
    };
    let certificate_status = match get_field(header, row, "Certificate Status") {
        Some(v) => v,
        None => { return None; },
    };
    let status_date = match get_field(header, row, "Status Date") {
        Some(v) => v,
        None => { return None; },
    };
    let address_line_1 = match get_field(header, row, "Address Line 1") {
        Some(v) => v,
        None => { return None; },
    };
    let address_line_2 = match get_field(header, row, "Address Line 2") {
        Some(v) => v,
        None => { return None; },
    };
    let city_state_zip = match get_field(header, row, "City-State-Zip") {
        Some(v) => v,
        None => { return None; },
    };
    let county = match get_field(header, row, "County") {
        Some(v) => v,
        None => { return None; },
    };
    let customer_number_y = match get_field(header, row, "Customer Number_y") {
        Some(v) => v,
        None => { return None; },
    };
    let year = match get_field(header, row, "Year") {
        Some(v) => v,
        None => { return None; },
    };
    let dogs = match get_field(header, row, "Dogs") {
        Some(v) => v,
        None => { return None; },
    };
    let cats = match get_field(header, row, "Cats") {
        Some(v) => v,
        None => { return None; },
    };
    let guinea_pigs = match get_field(header, row, "Guinea Pigs") {
        Some(v) => v,
        None => { return None; },
    };
    let hamsters = match get_field(header, row, "Hamsters") {
        Some(v) => v,
        None => { return None; },
    };
    let rabbits = match get_field(header, row, "Rabbits") {
        Some(v) => v,
        None => { return None; },
    };
    let non_human_primates = match get_field(header, row, "Non-Human Primates") {
        Some(v) => v,
        None => { return None; },
    };
    let sheep = match get_field(header, row, "Sheep") {
        Some(v) => v,
        None => { return None; },
    };
    let pigs = match get_field(header, row, "Pigs") {
        Some(v) => v,
        None => { return None; },
    };
    let other_farm_animals = match get_field(header, row, "Other Farm Animals") {
        Some(v) => v,
        None => { return None; },
    };
    let all_other_animals = match get_field(header, row, "All Other Animals") {
        Some(v) => v,
        None => { return None; },
    };
    let latitude = match get_field(header, row, "latitude") {
        Some(v) => v,
        None => { return None; },
    };
    let longitude = match get_field(header, row, "longitude") {
        Some(v) => v,
        None => { return None; },
    };
    let animals_tested = get_field(header, row, "Animals Tested On");
    Some(AphisReport {
        account_name,
        customer_number_x,
        certificate_number,
        registration_type,
        certificate_status,
        status_date,
        address_line_1,
        address_line_2,
        city_state_zip,
        county,
        customer_number_y,
        year,
        dogs,
        cats,
        guinea_pigs,
        hamsters,
        rabbits,
        non_human_primates,
        sheep,
        pigs,
        other_farm_animals,
        all_other_animals,
        latitude,
        longitude,
        animals_tested,
    })
}

} // verus!
