use chain_lookup::{
    candidate_rows, detail_rows, find_by_name, list_rows, list_table, search_folded,
    sort_by_chain_id, ChainInfo, Currency, Explorer, Features, NameMatch,
};

fn chain(name: &str, id: u64) -> ChainInfo {
    ChainInfo {
        name: name.to_string(),
        chain: "ETH".to_string(),
        rpc: Vec::new(),
        features: None,
        faucets: Vec::new(),
        native_currency: Currency {
            name: "Ether".to_string(),
            symbol: "ETH".to_string(),
            decimals: 18,
        },
        info_url: "https://example.org".to_string(),
        short_name: "eth".to_string(),
        chain_id: id,
        network_id: id,
        slip44: None,
        ens: None,
        explorers: None,
    }
}

fn strings(v: &[&str]) -> Vec<String> {
    v.iter().map(|s| s.to_string()).collect()
}

#[test]
fn exact_match_takes_precedence() {
    let records = vec![chain("Ethereum Classic", 61), chain("Ethereum", 1)];
    match find_by_name(&records, "ethereum") {
        NameMatch::Exact(v) => assert_eq!(v, vec![1]),
        other => panic!("expected an exact match, got {:?}", other),
    }
}

#[test]
fn substring_only_gives_candidates() {
    let records = vec![chain("Polygon", 137), chain("Polygon zkEVM", 1101)];
    match find_by_name(&records, "zkevm") {
        NameMatch::Candidates(v) => {
            assert_eq!(v, vec![1]);
            let rows = candidate_rows(&records, &v);
            assert_eq!(rows, vec![("Polygon zkEVM".to_string(), "1101".to_string())]);
        }
        other => panic!("expected candidates, got {:?}", other),
    }
}

#[test]
fn unknown_name_is_not_found() {
    let records = vec![chain("Ethereum", 1), chain("Polygon", 137), chain("Gnosis", 100)];
    assert!(matches!(find_by_name(&records, "doesnotexist123"), NameMatch::NotFound));
}

#[test]
fn not_found_over_empty_corpus() {
    let records: Vec<ChainInfo> = Vec::new();
    assert!(matches!(find_by_name(&records, "doesnotexist123"), NameMatch::NotFound));
}

#[test]
fn several_exact_matches_all_listed() {
    let records = vec![chain("Testnet", 5), chain("Other", 6), chain("TESTNET", 7)];
    match find_by_name(&records, "testnet") {
        NameMatch::Exact(v) => assert_eq!(v, vec![0, 2]),
        other => panic!("expected exact matches, got {:?}", other),
    }
}

#[test]
fn lowercase_is_applied_to_names_and_query() {
    let records = vec![chain("Arbitrum One", 42161), chain("Base", 8453)];
    match find_by_name(&records, "ARBITRUM") {
        NameMatch::Candidates(v) => assert_eq!(v, vec![0]),
        other => panic!("expected candidates, got {:?}", other),
    }
}

#[test]
fn search_folded_compares_as_given() {
    let names = strings(&["abc", "xabcx", "ABC"]);
    match search_folded(&names, "abc") {
        NameMatch::Exact(v) => assert_eq!(v, vec![0]),
        other => panic!("expected an exact match, got {:?}", other),
    }
    match search_folded(&names, "bc") {
        NameMatch::Candidates(v) => assert_eq!(v, vec![0, 1]),
        other => panic!("expected candidates, got {:?}", other),
    }
    assert!(matches!(search_folded(&names, "zz"), NameMatch::NotFound));
}

#[test]
fn sort_orders_by_chain_id_and_is_stable() {
    let records = vec![chain("c", 10), chain("a", 1), chain("b1", 5), chain("b2", 5), chain("z", 0)];
    let sorted = sort_by_chain_id(records);
    let got: Vec<(u64, String)> = sorted.iter().map(|c| (c.chain_id, c.name.clone())).collect();
    assert_eq!(
        got,
        vec![
            (0, "z".to_string()),
            (1, "a".to_string()),
            (5, "b1".to_string()),
            (5, "b2".to_string()),
            (10, "c".to_string()),
        ]
    );
}

#[test]
fn sort_of_empty_is_empty() {
    assert!(sort_by_chain_id(Vec::new()).is_empty());
}

#[test]
fn list_table_rows_sorted_and_counted() {
    let records = vec![chain("Polygon", 137), chain("Ethereum", 1), chain("Gnosis", 100)];
    let rows = list_table(records);
    assert_eq!(rows.len(), 3);
    assert_eq!(rows[0], strings(&["Ethereum", "1", "Ether", "ETH", "18"]));
    assert_eq!(rows[1][1], "100");
    assert_eq!(rows[2][0], "Polygon");
    assert_eq!(rows[2][1], "137");
}

#[test]
fn list_rows_keep_order() {
    let records = vec![chain("B", 18446744073709551615), chain("A", 0)];
    let rows = list_rows(&records);
    assert_eq!(rows[0], strings(&["B", "18446744073709551615", "Ether", "ETH", "18"]));
    assert_eq!(rows[1], strings(&["A", "0", "Ether", "ETH", "18"]));
}

#[test]
fn detail_rows_with_empty_lists_show_none() {
    let info = chain("Ethereum", 1);
    let rows = detail_rows(&info);
    let expected: Vec<(String, String)> = vec![
        ("CHAIN_NAME", "Ethereum"),
        ("CHAIN_ID", "1"),
        ("NATIVE_CURRENCY", "Ether"),
        ("SYMBOL", "ETH"),
        ("DECIMALS", "18"),
        ("NETWORK", "1"),
        ("INFO", "https://example.org"),
        ("RPC", "None"),
        ("FAUCETS", "None"),
        ("EXPLORERS", "None"),
        ("FEATURES", "None"),
    ]
    .into_iter()
    .map(|(a, b)| (a.to_string(), b.to_string()))
    .collect();
    assert_eq!(rows, expected);
}

#[test]
fn detail_rows_join_lists_with_newlines() {
    let mut info = chain("Gnosis", 100);
    info.network_id = 200;
    info.rpc = strings(&["https://rpc.one", "https://rpc.two"]);
    info.faucets = strings(&["https://faucet"]);
    info.explorers = Some(vec![
        Explorer {
            name: "blockscout".to_string(),
            url: "https://blockscout.com".to_string(),
            standard: "EIP3091".to_string(),
        },
        Explorer {
            name: "scan".to_string(),
            url: "https://scan.io".to_string(),
            standard: "none".to_string(),
        },
    ]);
    info.features = Some(vec![Features { name: "EIP155".to_string() }, Features { name: "EIP1559".to_string() }]);
    let rows = detail_rows(&info);
    assert_eq!(rows[1].1, "100");
    assert_eq!(rows[5].1, "200");
    assert_eq!(rows[7].1, "https://rpc.one\nhttps://rpc.two");
    assert_eq!(rows[8].1, "https://faucet");
    assert_eq!(rows[9].1, "blockscout https://blockscout.com\nscan https://scan.io");
    assert_eq!(rows[10].1, "EIP155\nEIP1559");
}

#[test]
fn detail_rows_empty_explorer_list_shows_none() {
    let mut info = chain("X", 3);
    info.explorers = Some(Vec::new());
    info.features = Some(Vec::new());
    let rows = detail_rows(&info);
    assert_eq!(rows[9].1, "None");
    assert_eq!(rows[10].1, "None");
}
