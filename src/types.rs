use std::collections::HashMap;
use vstd::prelude::*;

verus! {

/// The metadata of one blockchain network, as one file of the registry holds it.
#[derive(Debug, Clone)]
pub struct ChainInfo {
    pub name: String,
    pub chain: String,
    pub rpc: Vec<String>,
    pub features: Option<Vec<Features>>,
    pub faucets: Vec<String>,
    pub native_currency: Currency,
    pub info_url: String,
    pub short_name: String,
    pub chain_id: u64,
    pub network_id: u64,
    pub slip44: Option<u64>,
    pub ens: Option<HashMap<String, String>>,
    pub explorers: Option<Vec<Explorer>>,
}

/// A named capability of a network.
#[derive(Debug, Clone)]
pub struct Features {
    pub name: String,
}

/// The native currency of a network.
#[derive(Debug, Clone)]
pub struct Currency {
    pub name: String,
    pub symbol: String,
    pub decimals: u64,
}

/// A block explorer of a network.
#[derive(Debug, Clone)]
pub struct Explorer {
    pub name: String,
    pub url: String,
    pub standard: String,
}

} // verus!
