use crate::listing::{sort_by_chain_id, stably_sorted};
use crate::text::{decimal, decimal_string, join_lines, joined};
use crate::types::{ChainInfo, Explorer, Features};
use vstd::prelude::*;

verus! {

/// A list of lines as one cell: the lines joined by newlines, or the word
/// `None` when there is no line.
pub open spec fn lines_or_none(lines: Seq<Seq<char>>) -> Seq<char> {
    if lines.len() == 0 {
        "None"@
    } else {
        joined(lines, "\n"@)
    }
}

/// The line that shows one explorer: its name, a space and its address.
pub open spec fn explorer_line(e: Explorer) -> Seq<char> {
    e.name@ + " "@ + e.url@
}

/// The lines that show the explorers of a network; none when it has none.
pub open spec fn explorer_lines(explorers: Option<Vec<Explorer>>) -> Seq<Seq<char>> {
    match explorers {
        Some(v) => v@.map_values(|e: Explorer| explorer_line(e)),
        None => Seq::empty(),
    }
}

/// The lines that show the features of a network; none when it has none.
pub open spec fn feature_lines(features: Option<Vec<Features>>) -> Seq<Seq<char>> {
    match features {
        Some(v) => v@.map_values(|f: Features| f.name@),
        None => Seq::empty(),
    }
}

/// The strings of a list, as sequences of characters.
pub open spec fn string_views(v: Seq<String>) -> Seq<Seq<char>> {
    v.map_values(|s: String| s@)
}

/// The detail view of one record: one row of label and value per field.
pub open spec fn detail_view(info: ChainInfo) -> Seq<(Seq<char>, Seq<char>)> {
    seq![
        ("CHAIN_NAME"@, info.name@),
        ("CHAIN_ID"@, decimal(info.chain_id as nat)),
        ("NATIVE_CURRENCY"@, info.native_currency.name@),
        ("SYMBOL"@, info.native_currency.symbol@),
        ("DECIMALS"@, decimal(info.native_currency.decimals as nat)),
        ("NETWORK"@, decimal(info.network_id as nat)),
        ("INFO"@, info.info_url@),
        ("RPC"@, lines_or_none(string_views(info.rpc@))),
        ("FAUCETS"@, lines_or_none(string_views(info.faucets@))),
        ("EXPLORERS"@, lines_or_none(explorer_lines(info.explorers))),
        ("FEATURES"@, lines_or_none(feature_lines(info.features))),
    ]
}

/// The row of one record in the listing of all chains: name, chain id, and
/// the name, symbol and decimals of its native currency.
pub open spec fn list_row(info: ChainInfo) -> Seq<Seq<char>> {
    seq![
        info.name@,
        decimal(info.chain_id as nat),
        info.native_currency.name@,
        info.native_currency.symbol@,
        decimal(info.native_currency.decimals as nat),
    ]
}

/// The row of one record in the table of candidates: its name and chain id.
pub open spec fn candidate_row(info: ChainInfo) -> (Seq<char>, Seq<char>) {
    (info.name@, decimal(info.chain_id as nat))
}

/// The pairs of strings, as pairs of sequences of characters.
pub open spec fn pair_views(v: Seq<(String, String)>) -> Seq<(Seq<char>, Seq<char>)> {
    v.map_values(|p: (String, String)| (p.0@, p.1@))
}

fn lines_cell(lines: &Vec<String>) -> (r: String)
    ensures
        r@ == lines_or_none(string_views(lines@)),
{
    if lines.len() == 0 {
        String::from_str("None")
    } else {
        join_lines(lines)
    }
}

fn explorers_cell(explorers: &Option<Vec<Explorer>>) -> (r: String)
    ensures
        r@ == lines_or_none(explorer_lines(*explorers)),
{
    let mut lines: Vec<String> = Vec::new();
    if let Some(v) = explorers {
        let mut i: usize = 0;
        while i < v.len()
            invariant
                i <= v@.len(),
                string_views(lines@) == explorer_lines(*explorers).subrange(0, i as int),
                *explorers == Some(*v),
            decreases v@.len() - i,
        {
            let line = v[i].name.clone().concat(" ").concat(v[i].url.as_str());
            let ghost before = lines@;
            lines.push(line);
            assert(string_views(lines@) =~= explorer_lines(*explorers).subrange(0, i + 1)) by {
                assert(string_views(before).len() == i);
                assert forall|k: int| 0 <= k < i implies #[trigger] lines@[k]@ == explorer_lines(
                    *explorers,
                )[k] by {
                    assert(lines@[k] == before[k]);
                    assert(string_views(before)[k] == explorer_lines(*explorers).subrange(
                        0,
                        i as int,
                    )[k]);
                }
            }
            i = i + 1;
        }
        assert(explorer_lines(*explorers).subrange(0, v@.len() as int) == explorer_lines(
            *explorers,
        ));
    }
    lines_cell(&lines)
}

fn features_cell(features: &Option<Vec<Features>>) -> (r: String)
    ensures
        r@ == lines_or_none(feature_lines(*features)),
{
    let mut lines: Vec<String> = Vec::new();
    if let Some(v) = features {
        let mut i: usize = 0;
        while i < v.len()
            invariant
                i <= v@.len(),
                string_views(lines@) == feature_lines(*features).subrange(0, i as int),
                *features == Some(*v),
            decreases v@.len() - i,
        {
            let line = v[i].name.clone();
            let ghost before = lines@;
            lines.push(line);
            assert(string_views(lines@) =~= feature_lines(*features).subrange(0, i + 1)) by {
                assert(string_views(before).len() == i);
                assert forall|k: int| 0 <= k < i implies #[trigger] lines@[k]@ == feature_lines(
                    *features,
                )[k] by {
                    assert(lines@[k] == before[k]);
                    assert(string_views(before)[k] == feature_lines(*features).subrange(
                        0,
                        i as int,
                    )[k]);
                }
            }
            i = i + 1;
        }
        assert(feature_lines(*features).subrange(0, v@.len() as int) == feature_lines(*features));
    }
    lines_cell(&lines)
}

fn labelled(label: &str, value: String) -> (r: (String, String))
    ensures
        r.0@ == label@,
        r.1@ == value@,
{
    (String::from_str(label), value)
}

/// The rows of the detail view of one record. Lists with no entry show `None`.
pub fn detail_rows(info: &ChainInfo) -> (r: Vec<(String, String)>)
    ensures
        pair_views(r@) == detail_view(*info),
{
    let mut r: Vec<(String, String)> = Vec::new();
    r.push(labelled("CHAIN_NAME", info.name.clone()));
    r.push(labelled("CHAIN_ID", decimal_string(info.chain_id)));
    r.push(labelled("NATIVE_CURRENCY", info.native_currency.name.clone()));
    r.push(labelled("SYMBOL", info.native_currency.symbol.clone()));
    r.push(labelled("DECIMALS", decimal_string(info.native_currency.decimals)));
    r.push(labelled("NETWORK", decimal_string(info.network_id)));
    r.push(labelled("INFO", info.info_url.clone()));
    r.push(labelled("RPC", lines_cell(&info.rpc)));
    r.push(labelled("FAUCETS", lines_cell(&info.faucets)));
    r.push(labelled("EXPLORERS", explorers_cell(&info.explorers)));
    r.push(labelled("FEATURES", features_cell(&info.features)));
    assert(pair_views(r@) =~= detail_view(*info));
    r
}

/// The rows of the listing of the records, one per record and in the same order.
pub fn list_rows(records: &Vec<ChainInfo>) -> (r: Vec<Vec<String>>)
    ensures
        r@.len() == records@.len(),
        forall|i: int| 0 <= i < r@.len() ==> string_views(#[trigger] r@[i]@) == list_row(records@[i]),
{
    let mut r: Vec<Vec<String>> = Vec::new();
    let mut i: usize = 0;
    while i < records.len()
        invariant
            i <= records@.len(),
            r@.len() == i,
            forall|k: int| 0 <= k < i ==> string_views(#[trigger] r@[k]@) == list_row(records@[k]),
        decreases records@.len() - i,
    {
        let info = &records[i];
        let mut row: Vec<String> = Vec::new();
        row.push(info.name.clone());
        row.push(decimal_string(info.chain_id));
        row.push(info.native_currency.name.clone());
        row.push(info.native_currency.symbol.clone());
        row.push(decimal_string(info.native_currency.decimals));
        assert(string_views(row@) =~= list_row(*info));
        r.push(row);
        i = i + 1;
    }
    r
}

/// The rows of the table of candidates: name and chain id of each record at
/// the given positions, in the order of the positions.
pub fn candidate_rows(records: &Vec<ChainInfo>, positions: &Vec<usize>) -> (r: Vec<(String, String)>)
    requires
        forall|k: int| 0 <= k < positions@.len() ==> positions@[k] < records@.len(),
    ensures
        r@.len() == positions@.len(),
        forall|k: int|
            0 <= k < r@.len() ==> (#[trigger] r@[k].0@, r@[k].1@) == candidate_row(
                records@[positions@[k] as int],
            ),
{
    let mut r: Vec<(String, String)> = Vec::new();
    let mut k: usize = 0;
    while k < positions.len()
        invariant
            k <= positions@.len(),
            r@.len() == k,
            forall|k: int| 0 <= k < positions@.len() ==> positions@[k] < records@.len(),
            forall|l: int|
                0 <= l < k ==> (#[trigger] r@[l].0@, r@[l].1@) == candidate_row(
                    records@[positions@[l] as int],
                ),
        decreases positions@.len() - k,
    {
        let info = &records[positions[k]];
        r.push((info.name.clone(), decimal_string(info.chain_id)));
        k = k + 1;
    }
    r
}

/// The listing of all chains: one row per record, in ascending order of chain
/// id, records with equal chain ids in the order in which they were given.
pub fn list_table(records: Vec<ChainInfo>) -> (r: Vec<Vec<String>>)
    ensures
        r@.len() == records@.len(),
        exists|s: Seq<ChainInfo>|
            stably_sorted(records@, s) && forall|i: int|
                0 <= i < r@.len() ==> string_views(#[trigger] r@[i]@) == list_row(s[i]),
{
    let sorted = sort_by_chain_id(records);
    list_rows(&sorted)
}

} // verus!
