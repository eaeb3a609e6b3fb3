//! Small verified string utilities shared by the derivers: character-exact
//! string comparison, single-character append, and comma-and-space joining.

use vstd::prelude::*;

verus! {

/// Relies on `String::push`: appends the given character to the end of the
/// string and changes nothing else.
#[verifier::external_body]
pub(crate) fn push_char(s: &mut String, c: char)
    ensures
        final(s)@ == old(s)@.push(c),
{
    s.push(c);
}

/// Character-for-character equality of two string slices.
pub fn str_eq(a: &str, b: &str) -> (r: bool)
    ensures
        r == (a@ == b@),
{
    let n = a.unicode_len();
    if n != b.unicode_len() {
        return false;
    }
    let mut i: usize = 0;
    while i < n
        invariant
            i <= n,
            n == a@.len(),
            n == b@.len(),
            forall|j: int| 0 <= j < i ==> a@[j] == b@[j],
        decreases n - i,
    {
        if a.get_char(i) != b.get_char(i) {
            return false;
        }
        i = i + 1;
    }
    proof {
        assert(a@ =~= b@);
    }
    true
}

/// The parts joined in order with the separator between neighbours.
pub open spec fn join_with(parts: Seq<Seq<char>>, sep: Seq<char>) -> Seq<char>
    decreases parts.len(),
{
    if parts.len() == 0 {
        Seq::empty()
    } else if parts.len() == 1 {
        parts[0]
    } else {
        join_with(parts.drop_last(), sep) + sep + parts.last()
    }
}

/// Joins the given strings with `", "` between neighbours.
pub fn join_comma(parts: &Vec<String>) -> (r: String)
    ensures
        r@ == join_with(parts.deep_view(), ", "@),
{
    let ghost dv = parts.deep_view();
    let mut r = String::new();
    let mut i: usize = 0;
    while i < parts.len()
        invariant
            i <= parts.len(),
            dv == parts.deep_view(),
            dv.len() == parts.len(),
            r@ == join_with(dv.take(i as int), ", "@),
        decreases parts.len() - i,
    {
        if i > 0 {
            r.append(", ");
        }
        r.append(parts[i].as_str());
        proof {
            assert(dv.take(i + 1).drop_last() =~= dv.take(i as int));
            assert(dv.take(i + 1).last() == dv[i as int]);
            if i == 0 {
                assert(join_with(dv.take(1), ", "@) == dv[0]);
            }
        }
        i = i + 1;
    }
    proof {
        assert(dv.take(parts.len() as int) =~= dv);
    }
    r
}

/// A join of at least one nonempty part is nonempty.
pub proof fn lemma_join_nonempty(parts: Seq<Seq<char>>, sep: Seq<char>)
    requires
        parts.len() > 0,
        forall|i: int| 0 <= i < parts.len() ==> #[trigger] parts[i].len() > 0,
    ensures
        join_with(parts, sep).len() > 0,
{
    if parts.len() == 1 {
        assert(parts[0].len() > 0);
    } else {
        assert(parts.last().len() > 0);
    }
}

/// A join starts with the first character of its first part.
pub proof fn lemma_join_first_char(parts: Seq<Seq<char>>, sep: Seq<char>)
    requires
        parts.len() > 0,
        parts[0].len() > 0,
    ensures
        join_with(parts, sep).len() > 0,
        join_with(parts, sep)[0] == parts[0][0],
    decreases parts.len(),
{
    if parts.len() > 1 {
        assert(parts.drop_last()[0] == parts[0]);
        lemma_join_first_char(parts.drop_last(), sep);
    }
}

/// With two or more nonempty parts and a two-character separator, a join is
/// at least four characters long.
pub proof fn lemma_join_two_or_more_len(parts: Seq<Seq<char>>, sep: Seq<char>)
    requires
        parts.len() >= 2,
        sep.len() == 2,
        forall|i: int| 0 <= i < parts.len() ==> #[trigger] parts[i].len() > 0,
    ensures
        join_with(parts, sep).len() >= 4,
{
    let head = parts.drop_last();
    assert(forall|i: int|
        0 <= i < head.len() ==> #[trigger] head[i].len() > 0) by {
        assert(forall|i: int| 0 <= i < head.len() ==> head[i] == parts[i]);
    }
    lemma_join_nonempty(head, sep);
    assert(parts.last().len() > 0);
}

} // verus!
