pub mod entrypoint;

use crate::rpc::contract::contract_text;
use crate::rpc::BlockID;
use vstd::prelude::*;
use vstd::string::StringExecFns;

verus! {

/// The path under which the entrypoints of a contract are found.
pub fn path(chain_id: &str, block_id: &BlockID, contract: &str) -> (path: String)
    ensures
        path@ == contract_text(chain_id@, *block_id, contract@) + "/entrypoints"@,
{
    let chain_id = String::from_str(chain_id);
    let contract = String::from_str(contract);
    crate::rpc::contract::path(&chain_id, block_id, &contract).concat("/entrypoints")
}

} // verus!
