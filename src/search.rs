use crate::text::{contains_text, occurs_in};
use crate::types::ChainInfo;
use vstd::prelude::*;

verus! {

/// The lowercase form of a string, as `str::to_lowercase` computes it.
pub uninterp spec fn lower_of(s: Seq<char>) -> Seq<char>;

/// Relies on `str::to_lowercase`: the lowercase form depends on the characters
/// of the string alone.
#[verifier::external_body]
fn lowercase(s: &str) -> (r: String)
    ensures
        r@ == lower_of(s@),
{
    s.to_lowercase()
}

/// The answer to a query by name, given as positions in the searched records.
#[derive(Debug)]
pub enum NameMatch {
    /// The records whose name equals the query.
    Exact(Vec<usize>),
    /// No name equals the query; these are the records whose name holds it.
    Candidates(Vec<usize>),
    /// No name equals or holds the query.
    NotFound,
}

/// Whether the name at position `i` is selected: when `exact`, the name equals
/// the query; otherwise it holds the query without being equal to it.
pub open spec fn selects(names: Seq<Seq<char>>, q: Seq<char>, exact: bool, i: int) -> bool {
    if exact {
        names[i] == q
    } else {
        names[i] != q && occurs_in(q, names[i])
    }
}

/// `r` lists, in ascending order and each once, the positions below `n` whose
/// name is selected.
pub open spec fn lists_selected(
    r: Seq<usize>,
    names: Seq<Seq<char>>,
    q: Seq<char>,
    exact: bool,
    n: int,
) -> bool {
    &&& forall|k: int| 0 <= k < r.len() ==> r[k] < n && selects(names, q, exact, r[k] as int)
    &&& forall|k: int, l: int| 0 <= k < l < r.len() ==> r[k] < r[l]
    &&& forall|i: int| 0 <= i < n && #[trigger] selects(names, q, exact, i) ==> r.contains(i as usize)
}

/// Whether some name below `n` is selected.
pub open spec fn any_selected(names: Seq<Seq<char>>, q: Seq<char>, exact: bool) -> bool {
    exists|i: int| 0 <= i < names.len() && #[trigger] selects(names, q, exact, i)
}

/// `m` answers the query `q` over `names`: the exact matches when there is one,
/// else the names that hold the query when there is one, else nothing found.
pub open spec fn answers(names: Seq<Seq<char>>, q: Seq<char>, m: NameMatch) -> bool {
    if any_selected(names, q, true) {
        m matches NameMatch::Exact(v) && lists_selected(v@, names, q, true, names.len() as int)
    } else if any_selected(names, q, false) {
        m matches NameMatch::Candidates(v) && lists_selected(v@, names, q, false, names.len() as int)
    } else {
        m is NotFound
    }
}

proof fn lemma_extend_selected(
    r: Seq<usize>,
    names: Seq<Seq<char>>,
    q: Seq<char>,
    exact: bool,
    i: int,
    taken: bool,
)
    requires
        0 <= i < names.len(),
        i <= usize::MAX,
        lists_selected(r, names, q, exact, i),
        taken == selects(names, q, exact, i),
    ensures
        lists_selected(
            if taken {
                r.push(i as usize)
            } else {
                r
            },
            names,
            q,
            exact,
            i + 1,
        ),
{
    if taken {
        let r2 = r.push(i as usize);
        assert(r2[r.len() as int] == i as usize);
        assert forall|j: int| 0 <= j < i + 1 && #[trigger] selects(names, q, exact, j) implies r2.contains(
            j as usize,
        ) by {
            if j < i {
                let k = choose|k: int| 0 <= k < r.len() && r[k] == j as usize;
                assert(r2[k] == j as usize);
            }
        }
    }
}

/// The names of the records in lowercase.
pub open spec fn folded_names(records: Seq<ChainInfo>) -> Seq<Seq<char>> {
    records.map_values(|c: ChainInfo| lower_of(c.name@))
}

/// Answers a query over names that are already in the form in which they are
/// compared.
pub fn search_folded(names: &Vec<String>, query: &str) -> (m: NameMatch)
    ensures
        answers(names@.map_values(|s: String| s@), query@, m),
{
    let ghost ns = names@.map_values(|s: String| s@);
    let ghost q = query@;
    let mut exact: Vec<usize> = Vec::new();
    let mut partial: Vec<usize> = Vec::new();
    let mut i: usize = 0;
    while i < names.len()
        invariant
            i <= names@.len(),
            ns == names@.map_values(|s: String| s@),
            q == query@,
            lists_selected(exact@, ns, q, true, i as int),
            lists_selected(partial@, ns, q, false, i as int),
        decreases names@.len() - i,
    {
        let name = names[i].as_str();
        assert(name@ == ns[i as int]);
        let same_len = name.unicode_len() == query.unicode_len();
        let holds = contains_text(name, query);
        proof {
            if name@ == q {
                assert(name@.subrange(0, 0 + q.len() as int) == q);
                assert(occurs_in(q, name@));
            }
            if same_len && holds {
                let w = choose|w: int|
                    0 <= w && w + q.len() <= name@.len() && #[trigger] name@.subrange(
                        w,
                        w + q.len(),
                    ) == q;
                assert(w == 0);
                assert(name@.subrange(0, q.len() as int) == name@);
            }
            lemma_extend_selected(exact@, ns, q, true, i as int, same_len && holds);
            lemma_extend_selected(partial@, ns, q, false, i as int, !(same_len && holds) && holds);
        }
        if same_len && holds {
            exact.push(i);
        } else if holds {
            partial.push(i);
        }
        i = i + 1;
    }
    if exact.len() > 0 {
        assert(selects(ns, q, true, exact@[0] as int));
        NameMatch::Exact(exact)
    } else {
        assert(!any_selected(ns, q, true)) by {
            assert forall|j: int| 0 <= j < ns.len() implies !#[trigger] selects(ns, q, true, j) by {
                if selects(ns, q, true, j) {
                    assert(exact@.contains(j as usize));
                }
            }
        }
        if partial.len() > 0 {
            assert(selects(ns, q, false, partial@[0] as int));
            NameMatch::Candidates(partial)
        } else {
            assert(!any_selected(ns, q, false)) by {
                assert forall|j: int| 0 <= j < ns.len() implies !#[trigger] selects(ns, q, false, j) by {
                    if selects(ns, q, false, j) {
                        assert(partial@.contains(j as usize));
                    }
                }
            }
            NameMatch::NotFound
        }
    }
}

/// Answers a query by name over the records. Names are compared without regard
/// to case.
pub fn find_by_name(records: &Vec<ChainInfo>, query: &str) -> (m: NameMatch)
    ensures
        answers(folded_names(records@), lower_of(query@), m),
{
    let mut names: Vec<String> = Vec::new();
    let mut i: usize = 0;
    while i < records.len()
        invariant
            i <= records@.len(),
            names@.len() == i,
            names@.map_values(|s: String| s@) == folded_names(records@).subrange(0, i as int),
        decreases records@.len() - i,
    {
        let folded = lowercase(records[i].name.as_str());
        assert(folded@ == folded_names(records@)[i as int]);
        let ghost before = names@;
        names.push(folded);
        assert forall|k: int| 0 <= k < i implies #[trigger] names@[k]@ == folded_names(
            records@,
        )[k] by {
            assert(names@[k] == before[k]);
            assert(before.map_values(|s: String| s@)[k] == folded_names(records@).subrange(
                0,
                i as int,
            )[k]);
        }
        assert(names@.map_values(|s: String| s@) =~= folded_names(records@).subrange(
            0,
            i + 1,
        ));
        i = i + 1;
    }
    assert(folded_names(records@).subrange(0, records@.len() as int) == folded_names(records@));
    let q = lowercase(query);
    search_folded(&names, q.as_str())
}

} // verus!
