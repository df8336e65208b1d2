use crate::rpc::contract::contract_text;
use crate::rpc::normalize_types_query;
use crate::rpc::query_text;
use crate::rpc::query_view;
use crate::rpc::BlockID;
use crate::rpc::Request;
use crate::rpc::TezosRPCContext;
use vstd::prelude::*;
use vstd::string::StringExecFns;

verus! {

/// The path under which one entrypoint of a contract is found.
pub open spec fn entrypoint_text(
    chain_id: Seq<char>,
    block: BlockID,
    contract: Seq<char>,
    entrypoint: Seq<char>,
) -> Seq<char> {
    contract_text(chain_id, block, contract) + "/entrypoints"@ + "/"@ + entrypoint
}

/// The path of an entrypoint of a contract.
pub fn path(chain_id: &str, block_id: &BlockID, contract: &str, entrypoint: &str) -> (path: String)
    ensures
        path@ == entrypoint_text(chain_id@, *block_id, contract@, entrypoint@),
{
    let mut path = crate::rpc::contract::entrypoints::path(chain_id, block_id, contract);
    path.append("/");
    path.append(entrypoint);
    path
}

/// What a request for the type of an entrypoint is made of.
pub struct RequestView {
    pub chain_id: Seq<char>,
    pub block_id: BlockID,
    pub contract: Seq<char>,
    pub entrypoint: Seq<char>,
    pub normalize_types: Option<bool>,
}

/// A builder of the request that obtains the type of a given entrypoint.
#[derive(Clone, Copy)]
pub struct RpcRequestBuilder<'a> {
    ctx: &'a TezosRPCContext,
    chain_id: &'a String,
    block_id: &'a BlockID,
    contract: &'a str,
    entrypoint: &'a str,
    normalize_types: Option<bool>,
}

impl<'a> View for RpcRequestBuilder<'a> {
    type V = RequestView;

    closed spec fn view(&self) -> RequestView {
        RequestView {
            chain_id: self.chain_id@,
            block_id: *self.block_id,
            contract: self.contract@,
            entrypoint: self.entrypoint@,
            normalize_types: self.normalize_types,
        }
    }
}

impl<'a> RpcRequestBuilder<'a> {
    /// A request about `entrypoint` of `contract` at the head of the chain
    /// of `ctx`, with nothing said about normalized types.
    pub fn new(ctx: &'a TezosRPCContext, contract: &'a str, entrypoint: &'a str) -> (builder: Self)
        ensures
            builder@ == (RequestView {
                chain_id: ctx.chain_id@,
                block_id: BlockID::Head,
                contract: contract@,
                entrypoint: entrypoint@,
                normalize_types: None,
            }),
            builder.context() == ctx,
    {
        RpcRequestBuilder {
            ctx,
            chain_id: &ctx.chain_id,
            block_id: &BlockID::Head,
            contract,
            entrypoint,
            normalize_types: None,
        }
    }

    /// The node that the request goes to.
    pub closed spec fn context(&self) -> &TezosRPCContext {
        self.ctx
    }

    /// Modify chain identifier to be used in the request.
    pub fn chain_id(&mut self, chain_id: &'a String) -> (builder: &mut Self)
        ensures
            builder@ == (RequestView { chain_id: chain_id@, ..old(self)@ }),
            builder.context() == old(self).context(),
            *final(self) == *final(builder),
    {
        self.chain_id = chain_id;
        self
    }

    /// Modify the block identifier to be used in the request.
    pub fn block_id(&mut self, block_id: &'a BlockID) -> (builder: &mut Self)
        ensures
            builder@ == (RequestView { block_id: *block_id, ..old(self)@ }),
            builder.context() == old(self).context(),
            *final(self) == *final(builder),
    {
        self.block_id = block_id;
        self
    }

    /// Whether the types should be normalized or not.
    pub fn normalize_types(&mut self, normalize_types: bool) -> (builder: &mut Self)
        ensures
            builder@ == (RequestView { normalize_types: Some(normalize_types), ..old(self)@ }),
            builder.context() == old(self).context(),
            *final(self) == *final(builder),
    {
        self.normalize_types = Some(normalize_types);
        self
    }

    /// The request as it is to be sent.
    pub fn request(&self) -> (request: Request)
        ensures
            request.path@ == entrypoint_text(
                self@.chain_id,
                self@.block_id,
                self@.contract,
                self@.entrypoint,
            ),
            query_view(request.query@) == query_text(self@.normalize_types),
    {
        let query = normalize_types_query(self.normalize_types);
        let path = self::path(
            self.chain_id.as_str(),
            self.block_id,
            self.contract,
            self.entrypoint,
        );
        Request { path, query }
    }
}

/// Return the type of a given entrypoint of a contract.
pub fn get<'a>(ctx: &'a TezosRPCContext, address: &'a str, entrypoint: &'a str) -> (builder:
    RpcRequestBuilder<'a>)
    ensures
        builder@ == (RequestView {
            chain_id: ctx.chain_id@,
            block_id: BlockID::Head,
            contract: address@,
            entrypoint: entrypoint@,
            normalize_types: None,
        }),
        builder.context() == ctx,
{
    RpcRequestBuilder::new(ctx, address, entrypoint)
}

} // verus!
