use crate::rpc::context_text;
use crate::rpc::BlockID;
use vstd::prelude::*;
use vstd::string::StringExecFns;

verus! {

/// The path under which the big maps of a block's context are found.
pub fn path(chain_id: &String, block_id: &BlockID) -> (path: String)
    ensures
        path@ == context_text(chain_id@, *block_id) + "/big_maps"@,
{
    crate::rpc::path(chain_id, block_id).concat("/big_maps")
}

} // verus!
