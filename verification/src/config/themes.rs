//! The installed themes: the style sheets in the theme directory.
use vstd::prelude::*;
use vstd::relations::{sorted_by, total_ordering};

use crate::text::{chars_of, slice_vec, string_of, views};

verus! {

broadcast use vstd::seq_lib::group_to_multiset_ensures;

/// The order of `str`'s `Ord` on texts: characters compared by code point,
/// a text before the texts it begins.
pub open spec fn lex_le(a: Seq<char>, b: Seq<char>) -> bool
    decreases a.len(),
{
    if a.len() == 0 {
        true
    } else if b.len() == 0 {
        false
    } else if a[0] != b[0] {
        (a[0] as u32) < (b[0] as u32)
    } else {
        lex_le(a.drop_first(), b.drop_first())
    }
}

proof fn lemma_lex_reflexive(a: Seq<char>)
    ensures
        lex_le(a, a),
    decreases a.len(),
{
    if a.len() > 0 {
        lemma_lex_reflexive(a.drop_first());
    }
}

proof fn lemma_lex_total(a: Seq<char>, b: Seq<char>)
    ensures
        lex_le(a, b) || lex_le(b, a),
    decreases a.len(),
{
    if a.len() > 0 && b.len() > 0 {
        if a[0] == b[0] {
            lemma_lex_total(a.drop_first(), b.drop_first());
        } else {
            vstd::utf8::char_u32_cast(a[0], a[0] as u32);
            vstd::utf8::char_u32_cast(b[0], b[0] as u32);
        }
    }
}

proof fn lemma_lex_antisymmetric(a: Seq<char>, b: Seq<char>)
    requires
        lex_le(a, b),
        lex_le(b, a),
    ensures
        a == b,
    decreases a.len(),
{
    if a.len() > 0 && b.len() > 0 {
        if a[0] == b[0] {
            lemma_lex_antisymmetric(a.drop_first(), b.drop_first());
            assert(a =~= seq![a[0]] + a.drop_first());
            assert(b =~= seq![b[0]] + b.drop_first());
        } else {
            assert((a[0] as u32) != (b[0] as u32)) by {
                vstd::utf8::char_u32_cast(a[0], a[0] as u32);
            }
        }
    } else {
        assert(a.len() == 0 && b.len() == 0);
        assert(a =~= b);
    }
}

proof fn lemma_lex_transitive(a: Seq<char>, b: Seq<char>, c: Seq<char>)
    requires
        lex_le(a, b),
        lex_le(b, c),
    ensures
        lex_le(a, c),
    decreases a.len(),
{
    if a.len() > 0 && b.len() > 0 && c.len() > 0 {
        if a[0] == b[0] && b[0] == c[0] {
            lemma_lex_transitive(a.drop_first(), b.drop_first(), c.drop_first());
        } else if a[0] == b[0] {
        } else if b[0] == c[0] {
        } else {
            assert((a[0] as u32) != (c[0] as u32) || a[0] == c[0]);
            if a[0] == c[0] {
                assert((a[0] as u32) < (b[0] as u32) && (b[0] as u32) < (c[0] as u32));
            }
        }
    }
}

/// `lex_le` orders all texts.
pub proof fn lemma_lex_total_ordering()
    ensures
        total_ordering(|a: Seq<char>, b: Seq<char>| lex_le(a, b)),
{
    let r = |a: Seq<char>, b: Seq<char>| lex_le(a, b);
    assert forall|a: Seq<char>| #[trigger] r(a, a) by {
        lemma_lex_reflexive(a);
    }
    assert forall|a: Seq<char>, b: Seq<char>| #[trigger] r(a, b) && #[trigger] r(b, a) implies a
        == b by {
        lemma_lex_antisymmetric(a, b);
    }
    assert forall|a: Seq<char>, b: Seq<char>, c: Seq<char>| #[trigger] r(a, b) && #[trigger] r(
        b,
        c,
    ) implies r(a, c) by {
        lemma_lex_transitive(a, b, c);
    }
    assert forall|a: Seq<char>, b: Seq<char>| #[trigger] r(a, b) || #[trigger] r(b, a) by {
        lemma_lex_total(a, b);
    }
}

/// Whether one text comes before or equals another (`a <= b` on `str`).
pub fn text_le(a: &[char], b: &[char]) -> (r: bool)
    ensures
        r == lex_le(a@, b@),
{
    let mut i: usize = 0;
    assert(a@.skip(0) =~= a@);
    assert(b@.skip(0) =~= b@);
    while i < a.len() && i < b.len() && a[i] == b[i]
        invariant
            i <= a.len(),
            i <= b.len(),
            lex_le(a@, b@) == lex_le(a@.skip(i as int), b@.skip(i as int)),
        decreases a.len() - i,
    {
        assert(a@.skip(i as int).drop_first() =~= a@.skip(i + 1));
        assert(b@.skip(i as int).drop_first() =~= b@.skip(i + 1));
        i = i + 1;
    }
    if i == a.len() {
        true
    } else if i == b.len() {
        false
    } else {
        (a[i] as u32) < (b[i] as u32)
    }
}

/// The theme name of a file name: its stem when its extension is `css`
/// (`Path::file_stem` and `Path::extension`: the extension follows the
/// last dot, which must not begin the name).
pub open spec fn css_stem(name: Seq<char>) -> Option<Seq<char>> {
    if name.len() >= 5 && name.subrange(name.len() - 4, name.len() as int) == ".css"@ {
        Some(name.subrange(0, name.len() - 4))
    } else {
        None
    }
}

/// The theme names among a directory's file names, in order.
pub open spec fn css_stems(names: Seq<Seq<char>>) -> Seq<Seq<char>>
    decreases names.len(),
{
    if names.len() == 0 {
        Seq::empty()
    } else {
        let rest = css_stems(names.drop_last());
        match css_stem(names.last()) {
            Some(s) => rest.push(s),
            None => rest,
        }
    }
}

fn stem_of(name: &str) -> (r: Option<String>)
    ensures
        match r {
            Some(s) => css_stem(name@) == Some(s@),
            None => css_stem(name@) is None,
        },
{
    let cs = chars_of(name);
    let n = cs.len();
    proof {
        reveal_strlit(".css");
    }
    if n >= 5 && cs[n - 4] == '.' && cs[n - 3] == 'c' && cs[n - 2] == 's' && cs[n - 1] == 's' {
        assert(cs@.subrange(n - 4, n as int) =~= ".css"@);
        let stem = slice_vec(cs.as_slice(), 0, n - 4);
        Some(string_of(stem.as_slice()))
    } else {
        if n >= 5 {
            assert(cs@.subrange(n - 4, n as int) != ".css"@) by {
                let t = cs@.subrange(n - 4, n as int);
                if t == ".css"@ {
                    assert(t[0] == '.' && t[1] == 'c' && t[2] == 's' && t[3] == 's');
                }
            }
        }
        None
    }
}

/// The installed themes named by a theme directory's file names: the
/// stems of the `.css` files, sorted as `str` sorts.
pub fn theme_names(file_names: &Vec<String>) -> (r: Vec<String>)
    ensures
        views(r@) == css_stems(views(file_names@)).sort_by(
            |a: Seq<char>, b: Seq<char>| lex_le(a, b),
        ),
{
    let ghost leq = |a: Seq<char>, b: Seq<char>| lex_le(a, b);
    proof {
        lemma_lex_total_ordering();
    }
    let mut r: Vec<String> = Vec::new();
    let mut i: usize = 0;
    while i < file_names.len()
        invariant
            i <= file_names.len(),
            leq == (|a: Seq<char>, b: Seq<char>| lex_le(a, b)),
            total_ordering(leq),
            sorted_by(views(r@), leq),
            views(r@).to_multiset() == css_stems(views(file_names@).take(i as int)).to_multiset(),
        decreases file_names.len() - i,
    {
        let ghost before = views(r@);
        assert(views(file_names@).take(i + 1).drop_last() =~= views(file_names@).take(i as int));
        assert(views(file_names@).take(i + 1).last() == file_names@[i as int]@);
        match stem_of(file_names[i].as_str()) {
            Some(stem) => {
                let sv = chars_of(stem.as_str());
                let mut j: usize = 0;
                while j < r.len()
                    invariant
                        j <= r.len(),
                        views(r@) == before,
                        sv@ == stem@,
                        leq == (|a: Seq<char>, b: Seq<char>| lex_le(a, b)),
                        total_ordering(leq),
                        forall|k: int| 0 <= k < j ==> lex_le(#[trigger] before[k], stem@),
                    ensures
                        j <= r.len(),
                        views(r@) == before,
                        forall|k: int| 0 <= k < j ==> lex_le(#[trigger] before[k], stem@),
                        j < r.len() ==> !lex_le(before[j as int], stem@),
                    decreases r.len() - j,
                {
                    let rv = chars_of(r[j].as_str());
                    assert(before[j as int] == r@[j as int]@);
                    if !text_le(rv.as_slice(), sv.as_slice()) {
                        break;
                    }
                    assert(before[j as int] == r@[j as int]@);
                    j = j + 1;
                }
                let ghost x = stem@;
                proof {
                    if j < r.len() {
                        assert(!lex_le(before[j as int], x));
                        lemma_lex_total(before[j as int], x);
                    }
                }
                r.insert(j, stem);
                proof {
                    let after = views(r@);
                    assert(after =~= before.insert(j as int, x));
                    assert(sorted_by(after, leq)) by {
                        assert forall|a: int, b: int| 0 <= a < b < after.len() implies #[trigger] leq(
                            after[a],
                            after[b],
                        ) by {
                            if b < j {
                                assert(after[a] == before[a] && after[b] == before[b]);
                            } else if b == j {
                                assert(after[a] == before[a]);
                            } else if a == j {
                                assert(after[b] == before[b - 1]);
                                assert(lex_le(x, before[j as int]));
                                if b - 1 > j {
                                    assert(leq(before[j as int], before[b - 1]));
                                    lemma_lex_transitive(x, before[j as int], before[b - 1]);
                                }
                            } else if a < j {
                                assert(after[a] == before[a] && after[b] == before[b - 1]);
                            } else {
                                assert(after[a] == before[a - 1] && after[b] == before[b - 1]);
                            }
                        }
                    }
                    assert(after.remove(j as int) =~= before);
                    assert(after.to_multiset() =~= before.to_multiset().insert(x)) by {
                        assert(after.remove(j as int).to_multiset() =~= after.to_multiset().remove(
                            after[j as int],
                        ));
                        assert(after.to_multiset().count(x) > 0) by {
                            assert(after.contains(x)) by {
                                assert(after[j as int] == x);
                            }
                        }
                    }
                }
            },
            None => {},
        }
        i = i + 1;
    }
    proof {
        assert(views(file_names@).take(file_names.len() as int) =~= views(file_names@));
        let stems = css_stems(views(file_names@));
        stems.lemma_sort_by_ensures(leq);
        vstd::seq_lib::lemma_sorted_unique(views(r@), stems.sort_by(leq), leq);
    }
    r
}

} // verus!
