use crate::rpc::contract::contract_text;
use crate::rpc::BlockID;
use crate::rpc::Request;
use crate::rpc::TezosRPCContext;
use vstd::prelude::*;
use vstd::string::StringExecFns;

verus! {

/// The path under which the delegate of a contract is found.
pub fn path(chain_id: &String, block_id: &BlockID, contract: &String) -> (path: String)
    ensures
        path@ == contract_text(chain_id@, *block_id, contract@) + "/delegate"@,
{
    crate::rpc::contract::path(chain_id, block_id, contract).concat("/delegate")
}

/// What a request for the delegate of a contract is made of.
pub struct RequestView {
    pub chain_id: Seq<char>,
    pub block_id: BlockID,
    pub contract: Seq<char>,
}

/// A builder of the request that accesses the delegate of a contract.
#[derive(Clone, Copy)]
pub struct RPCRequestBuilder<'a> {
    ctx: &'a TezosRPCContext,
    chain_id: &'a String,
    block_id: &'a BlockID,
    contract: &'a String,
}

impl<'a> View for RPCRequestBuilder<'a> {
    type V = RequestView;

    closed spec fn view(&self) -> RequestView {
        RequestView {
            chain_id: self.chain_id@,
            block_id: *self.block_id,
            contract: self.contract@,
        }
    }
}

impl<'a> RPCRequestBuilder<'a> {
    /// A request about `contract` at the head of the chain of `ctx`.
    pub fn new(ctx: &'a TezosRPCContext, contract: &'a String) -> (builder: Self)
        ensures
            builder@ == (RequestView {
                chain_id: ctx.chain_id@,
                block_id: BlockID::Head,
                contract: contract@,
            }),
            builder.context() == ctx,
    {
        RPCRequestBuilder {
            ctx,
            chain_id: &ctx.chain_id,
            block_id: &BlockID::Head,
            contract: contract,
        }
    }

    /// The node that the request goes to.
    pub closed spec fn context(&self) -> &TezosRPCContext {
        self.ctx
    }

    /// Modify chain identifier to be used in the request.
    pub fn chain_id(&mut self, chain_id: &'a String) -> (builder: &mut Self)
        ensures
            builder@ == (RequestView { chain_id: chain_id@, ..old(self)@ }),
            builder.context() == old(self).context(),
            *final(self) == *final(builder),
    {
        self.chain_id = chain_id;
        self
    }

    /// Modify the block identifier to be used in the request.
    pub fn block_id(&mut self, block_id: &'a BlockID) -> (builder: &mut Self)
        ensures
            builder@ == (RequestView { block_id: *block_id, ..old(self)@ }),
            builder.context() == old(self).context(),
            *final(self) == *final(builder),
    {
        self.block_id = block_id;
        self
    }

    /// The request as it is to be sent: the path of the delegate, and no
    /// query.
    pub fn request(&self) -> (request: Request)
        ensures
            request.path@ == contract_text(self@.chain_id, self@.block_id, self@.contract)
                + "/delegate"@,
            request.query@.len() == 0,
    {
        let path = self::path(self.chain_id, self.block_id, self.contract);
        Request { path, query: Vec::new() }
    }
}

/// The delegate that a response names: the one that came, or none where
/// the request failed.
pub fn delegate_of<E>(response: Result<String, E>) -> (delegate: Option<String>)
    ensures
        delegate == (match response {
            Ok(delegate) => Some(delegate),
            Err(_) => None,
        }),
{
    match response {
        Ok(delegate) => Some(delegate),
        Err(_) => None,
    }
}

/// Access the delegate of a contract, if any.
pub fn get<'a>(ctx: &'a TezosRPCContext, address: &'a String) -> (builder: RPCRequestBuilder<'a>)
    ensures
        builder@ == (RequestView {
            chain_id: ctx.chain_id@,
            block_id: BlockID::Head,
            contract: address@,
        }),
        builder.context() == ctx,
{
    RPCRequestBuilder::new(ctx, address)
}

} // verus!
