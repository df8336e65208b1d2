pub mod delegate;
pub mod entrypoints;

use crate::rpc::context_text;
use crate::rpc::normalize_types_query;
use crate::rpc::query_text;
use crate::rpc::query_view;
use crate::rpc::BlockID;
use crate::rpc::Request;
use crate::rpc::TezosRPCContext;
use vstd::prelude::*;
use vstd::string::StringExecFns;

verus! {

/// The path under which a contract is found.
pub open spec fn contract_text(chain_id: Seq<char>, block: BlockID, contract: Seq<char>) -> Seq<
    char,
> {
    context_text(chain_id, block) + "/contracts/"@ + contract
}

/// The path of a contract in the context of a block.
pub fn path(chain_id: &String, block_id: &BlockID, contract: &String) -> (path: String)
    ensures
        path@ == contract_text(chain_id@, *block_id, contract@),
{
    let mut path = crate::rpc::path(chain_id, block_id);
    path.append("/contracts/");
    path.append(contract.as_str());
    path
}

/// What a request for the status of a contract is made of.
pub struct RequestView {
    pub chain_id: Seq<char>,
    pub block_id: BlockID,
    pub contract: Seq<char>,
    pub normalize_types: Option<bool>,
}

/// A builder of the request that accesses the complete status of a contract.
#[derive(Clone, Copy)]
pub struct RPCRequestBuilder<'a> {
    ctx: &'a TezosRPCContext,
    chain_id: &'a String,
    block_id: &'a BlockID,
    contract: &'a String,
    normalize_types: Option<bool>,
}

impl<'a> View for RPCRequestBuilder<'a> {
    type V = RequestView;

    closed spec fn view(&self) -> RequestView {
        RequestView {
            chain_id: self.chain_id@,
            block_id: *self.block_id,
            contract: self.contract@,
            normalize_types: self.normalize_types,
        }
    }
}

impl<'a> RPCRequestBuilder<'a> {
    /// A request about `contract` at the head of the chain of `ctx`, with
    /// nothing said about normalized types.
    pub fn new(ctx: &'a TezosRPCContext, contract: &'a String) -> (builder: Self)
        ensures
            builder@ == (RequestView {
                chain_id: ctx.chain_id@,
                block_id: BlockID::Head,
                contract: contract@,
                normalize_types: None,
            }),
            builder.context() == ctx,
    {
        RPCRequestBuilder {
            ctx,
            chain_id: &ctx.chain_id,
            block_id: &BlockID::Head,
            contract: contract,
            normalize_types: None,
        }
    }

    /// The node that the request goes to.
    pub closed spec fn context(&self) -> &TezosRPCContext {
        self.ctx
    }

    /// Modify chain identifier to be used in the request.
    pub fn chain_id(&mut self, chain_id: &'a String) -> (builder: &mut Self)
        ensures
            builder@ == (RequestView { chain_id: chain_id@, ..old(self)@ }),
            builder.context() == old(self).context(),
            *final(self) == *final(builder),
    {
        self.chain_id = chain_id;
        self
    }

    /// Modify the block identifier to be used in the request.
    pub fn block_id(&mut self, block_id: &'a BlockID) -> (builder: &mut Self)
        ensures
            builder@ == (RequestView { block_id: *block_id, ..old(self)@ }),
            builder.context() == old(self).context(),
            *final(self) == *final(builder),
    {
        self.block_id = block_id;
        self
    }

    /// Whether types should be normalized (annotations removed, combs
    /// flattened) or kept as the script has them.
    pub fn normalize_types(&mut self, normalize_types: bool) -> (builder: &mut Self)
        ensures
            builder@ == (RequestView { normalize_types: Some(normalize_types), ..old(self)@ }),
            builder.context() == old(self).context(),
            *final(self) == *final(builder),
    {
        self.normalize_types = Some(normalize_types);
        self
    }

    /// The request as it is to be sent.
    pub fn request(&self) -> (request: Request)
        ensures
            request.path@ == contract_text(self@.chain_id, self@.block_id, self@.contract),
            query_view(request.query@) == query_text(self@.normalize_types),
    {
        let query = normalize_types_query(self.normalize_types);
        let path = self::path(self.chain_id, self.block_id, self.contract);
        Request { path, query }
    }
}

/// Access the complete status of a contract.
pub fn get<'a>(ctx: &'a TezosRPCContext, address: &'a String) -> (builder: RPCRequestBuilder<'a>)
    ensures
        builder@ == (RequestView {
            chain_id: ctx.chain_id@,
            block_id: BlockID::Head,
            contract: address@,
            normalize_types: None,
        }),
        builder.context() == ctx,
{
    RPCRequestBuilder::new(ctx, address)
}

} // verus!
