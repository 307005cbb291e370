//! Character-sequence views of string vectors and environment rows, with
//! the lemmas the loop proofs lean on.

use vstd::prelude::*;

verus! {

/// The character sequences of a sequence of strings.
pub open spec fn str_views(s: Seq<String>) -> Seq<Seq<char>> {
    Seq::new(s.len(), |i: int| s[i]@)
}

/// The character-sequence pairs of a sequence of environment rows.
pub open spec fn row_views(s: Seq<(String, String)>) -> Seq<(Seq<char>, Seq<char>)> {
    Seq::new(s.len(), |i: int| (s[i].0@, s[i].1@))
}

/// Viewing commutes with appending one string.
pub broadcast proof fn lemma_str_views_push(s: Seq<String>, x: String)
    ensures
        #[trigger] str_views(s.push(x)) == str_views(s).push(x@),
{
    assert(str_views(s.push(x)) =~= str_views(s).push(x@));
}

/// Viewing commutes with taking a prefix of strings.
pub broadcast proof fn lemma_str_views_take(s: Seq<String>, n: int)
    requires
        0 <= n <= s.len(),
    ensures
        #[trigger] str_views(s.take(n)) == str_views(s).take(n),
{
    assert(str_views(s.take(n)) =~= str_views(s).take(n));
}

/// Viewing commutes with appending one row.
pub broadcast proof fn lemma_row_views_push(s: Seq<(String, String)>, x: (String, String))
    ensures
        #[trigger] row_views(s.push(x)) == row_views(s).push((x.0@, x.1@)),
{
    assert(row_views(s.push(x)) =~= row_views(s).push((x.0@, x.1@)));
}

/// Viewing commutes with taking a prefix of rows.
pub broadcast proof fn lemma_row_views_take(s: Seq<(String, String)>, n: int)
    requires
        0 <= n <= s.len(),
    ensures
        #[trigger] row_views(s.take(n)) == row_views(s).take(n),
{
    assert(row_views(s.take(n)) =~= row_views(s).take(n));
}

/// The lemmas that connect views with the vector operations the
/// executable code performs.
pub broadcast group group_view_lemmas {
    lemma_str_views_push,
    lemma_str_views_take,
    lemma_row_views_push,
    lemma_row_views_take,
}

} // verus!
