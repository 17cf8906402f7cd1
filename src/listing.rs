use crate::types::ChainInfo;
use vstd::prelude::*;

verus! {

/// Whether the records stand in ascending order of chain id.
pub open spec fn sorted_by_chain_id(s: Seq<ChainInfo>) -> bool {
    forall|i: int, j: int| 0 <= i < j < s.len() ==> s[i].chain_id <= s[j].chain_id
}

/// The records with the given chain id, in the order in which they stand.
pub open spec fn with_chain_id(s: Seq<ChainInfo>, id: u64) -> Seq<ChainInfo> {
    s.filter(|c: ChainInfo| c.chain_id == id)
}

/// `s` holds the records of `given` in ascending order of chain id, records
/// with equal chain ids in the order in which `given` holds them.
pub open spec fn stably_sorted(given: Seq<ChainInfo>, s: Seq<ChainInfo>) -> bool {
    &&& sorted_by_chain_id(s)
    &&& s.len() == given.len()
    &&& forall|id: u64| #[trigger] with_chain_id(s, id) == with_chain_id(given, id)
}

proof fn lemma_none_with_chain_id(s: Seq<ChainInfo>, id: u64)
    requires
        forall|k: int| 0 <= k < s.len() ==> s[k].chain_id != id,
    ensures
        with_chain_id(s, id) == Seq::<ChainInfo>::empty(),
    decreases s.len(),
{
    reveal(Seq::filter);
    if s.len() > 0 {
        lemma_none_with_chain_id(s.drop_last(), id);
    }
}

proof fn lemma_with_chain_id_single(x: ChainInfo, id: u64)
    ensures
        with_chain_id(seq![x], id) == (if x.chain_id == id {
            seq![x]
        } else {
            Seq::<ChainInfo>::empty()
        }),
{
    reveal(Seq::filter);
    assert(seq![x].drop_last() == Seq::<ChainInfo>::empty());
    lemma_none_with_chain_id(Seq::<ChainInfo>::empty(), id);
}

/// Inserting `x` in front of the records with a larger chain id adds `x` at the
/// end of its own group and leaves every other group as it was.
proof fn lemma_insert_keeps_groups(s: Seq<ChainInfo>, j: int, x: ChainInfo, id: u64)
    requires
        0 <= j <= s.len(),
        forall|k: int| j <= k < s.len() ==> s[k].chain_id > x.chain_id,
    ensures
        with_chain_id(s.insert(j, x), id) == with_chain_id(s, id) + with_chain_id(seq![x], id),
{
    let a = s.subrange(0, j);
    let b = s.subrange(j, s.len() as int);
    let p = |c: ChainInfo| c.chain_id == id;
    assert(s.insert(j, x) == a + seq![x] + b);
    assert(s == a + b);
    Seq::filter_distributes_over_add(a + seq![x], b, p);
    Seq::filter_distributes_over_add(a, seq![x], p);
    Seq::filter_distributes_over_add(a, b, p);
    lemma_with_chain_id_single(x, id);
    if id == x.chain_id {
        lemma_none_with_chain_id(b, id);
        assert(with_chain_id(s, id) == with_chain_id(a, id));
    } else {
        assert(with_chain_id(a + seq![x], id) == with_chain_id(a, id));
    }
}

/// Orders the records by ascending chain id. Records with equal chain ids keep
/// the order in which they were given.
pub fn sort_by_chain_id(records: Vec<ChainInfo>) -> (r: Vec<ChainInfo>)
    ensures
        stably_sorted(records@, r@),
{
    let ghost given = records@;
    let mut rest = records;
    let mut out: Vec<ChainInfo> = Vec::new();
    while rest.len() > 0
        invariant
            out@.len() + rest@.len() == given.len(),
            rest@ == given.subrange(out@.len() as int, given.len() as int),
            sorted_by_chain_id(out@),
            forall|id: u64|
                #[trigger] with_chain_id(out@, id) == with_chain_id(
                    given.subrange(0, out@.len() as int),
                    id,
                ),
        decreases rest@.len(),
    {
        let ghost done = out@.len() as int;
        let x = rest.remove(0);
        let mut j: usize = out.len();
        while j > 0 && out[j - 1].chain_id > x.chain_id
            invariant
                j <= out@.len(),
                forall|k: int| j <= k < out@.len() ==> out@[k].chain_id > x.chain_id,
            decreases j,
        {
            j = j - 1;
        }
        let ghost before = out@;
        out.insert(j, x);
        proof {
            assert(given.subrange(0, done + 1) == given.subrange(0, done) + seq![x]);
            assert forall|id: u64| #[trigger]
                with_chain_id(out@, id) == with_chain_id(given.subrange(0, out@.len() as int), id)
            by {
                lemma_insert_keeps_groups(before, j as int, x, id);
                Seq::filter_distributes_over_add(
                    given.subrange(0, done),
                    seq![x],
                    |c: ChainInfo| c.chain_id == id,
                );
            }
            assert forall|a: int, b: int| 0 <= a < b < out@.len() implies out@[a].chain_id
                <= out@[b].chain_id by {
                if j > 0 {
                    assert(before[j - 1].chain_id <= x.chain_id);
                }
            }
            assert(rest@ == given.subrange(out@.len() as int, given.len() as int));
        }
    }
    assert(given.subrange(0, given.len() as int) == given);
    out
}

} // verus!
