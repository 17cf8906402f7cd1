use crate::text::{decimal, decimal_string};
use vstd::prelude::*;

verus! {

/// The name of the file that holds the record of a chain id.
pub open spec fn chain_file_name_of(id: u64) -> Seq<char> {
    "eip155-"@ + decimal(id as nat) + ".json"@
}

/// The address of the public registry of chain metadata.
pub open spec fn registry_url() -> Seq<char> {
    "https://github.com/ethereum-lists/chains.git"@
}

/// Where the local mirror of the registry lives and where it is fetched from.
#[derive(Debug, Clone)]
pub struct MirrorLayout {
    /// The address of the repository that is mirrored.
    pub remote_url: String,
    /// The directory of the local mirror.
    pub root: String,
}

/// The name of the file that holds the record of a chain id.
pub fn chain_file_name(id: u64) -> (r: String)
    ensures
        r@ == chain_file_name_of(id),
{
    String::from_str("eip155-").concat(decimal_string(id).as_str()).concat(".json")
}

impl MirrorLayout {
    /// The mirror of the public registry in the directory `.chains` under a
    /// home directory.
    pub fn under_home(home: &str) -> (r: MirrorLayout)
        ensures
            r.remote_url@ == registry_url(),
            r.root@ == home@ + "/.chains"@,
    {
        MirrorLayout {
            remote_url: String::from_str("https://github.com/ethereum-lists/chains.git"),
            root: String::from_str(home).concat("/.chains"),
        }
    }

    /// The directory of the mirror that holds one file per chain.
    pub fn data_dir(&self) -> (r: String)
        ensures
            r@ == self.root@ + "/_data/chains"@,
    {
        self.root.clone().concat("/_data/chains")
    }

    /// The path of the file that holds the record of a chain id.
    pub fn chain_file_path(&self, id: u64) -> (r: String)
        ensures
            r@ == self.root@ + "/_data/chains"@ + "/"@ + chain_file_name_of(id),
    {
        self.data_dir().concat("/").concat(chain_file_name(id).as_str())
    }
}

} // verus!
