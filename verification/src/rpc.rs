//! What is asked of a node over its RPC interface: the paths of the
//! endpoints, the query of each request, and how a response is to be read.
//! Sending is left to the caller.

pub mod big_maps;
pub mod contract;

use vstd::prelude::*;
use vstd::string::StringExecFns;

verus! {

/// The node that is asked, and the chain that it is asked about unless a
/// request names another.
pub struct TezosRPCContext {
    pub rpc_endpoint: String,
    pub chain_id: String,
}

impl TezosRPCContext {
    /// The address of `path` at the node.
    pub fn url(&self, path: &str) -> (url: String)
        ensures
            url@ == self.rpc_endpoint@ + path@,
    {
        self.rpc_endpoint.clone().concat(path)
    }

    /// Asks another node from now on.
    pub fn change_rpc_endpoint(&mut self, rpc_endpoint: String)
        ensures
            final(self).rpc_endpoint == rpc_endpoint,
            final(self).chain_id == old(self).chain_id,
    {
        self.rpc_endpoint = rpc_endpoint;
    }
}

/// The block that a request is about: the head of the chain, or a level. A
/// level below zero counts back from the head.
#[derive(Debug, Clone, Copy, PartialEq, Eq, Structural)]
pub enum BlockID {
    Head,
    Level(i32),
}

/// The character of a decimal digit.
pub open spec fn digit(d: nat) -> char {
    seq!['0', '1', '2', '3', '4', '5', '6', '7', '8', '9'][d as int]
}

/// A natural number in decimal digits, without leading zeros.
pub open spec fn decimal(n: nat) -> Seq<char>
    decreases n,
{
    if n < 10 {
        seq![digit(n)]
    } else {
        decimal(n / 10).push(digit(n % 10))
    }
}

/// How a block is named in a path.
pub open spec fn block_text(block: BlockID) -> Seq<char> {
    match block {
        BlockID::Head => "head"@,
        BlockID::Level(level) => if level < 0 {
            "head~"@ + decimal((-level) as nat)
        } else {
            decimal(level as nat)
        },
    }
}

/// The path under which a block's context is found.
pub open spec fn context_text(chain_id: Seq<char>, block: BlockID) -> Seq<char> {
    "/chains/"@ + chain_id + "/blocks/"@ + block_text(block) + "/context"@
}

fn digit_text(d: u32) -> (text: &'static str)
    requires
        d < 10,
    ensures
        text@ == seq![digit(d as nat)],
{
    proof {
        reveal_strlit("0");
        reveal_strlit("1");
        reveal_strlit("2");
        reveal_strlit("3");
        reveal_strlit("4");
        reveal_strlit("5");
        reveal_strlit("6");
        reveal_strlit("7");
        reveal_strlit("8");
        reveal_strlit("9");
    }
    let text = match d {
        0 => "0",
        1 => "1",
        2 => "2",
        3 => "3",
        4 => "4",
        5 => "5",
        6 => "6",
        7 => "7",
        8 => "8",
        _ => "9",
    };
    assert(text@ =~= seq![digit(d as nat)]);
    text
}

/// The decimal digits of `n`.
pub fn decimal_text(n: u32) -> (text: String)
    ensures
        text@ == decimal(n as nat),
    decreases n,
{
    if n < 10 {
        String::from_str(digit_text(n))
    } else {
        let mut text = decimal_text(n / 10);
        text.append(digit_text(n % 10));
        assert(text@ =~= decimal(n as nat));
        text
    }
}

impl BlockID {
    /// The name of the block in a path.
    pub fn value(&self) -> (text: String)
        ensures
            text@ == block_text(*self),
    {
        match self {
            BlockID::Head => String::from_str("head"),
            BlockID::Level(level) => {
                let wide: i64 = *level as i64;
                if wide < 0 {
                    let back: i64 = 0 - wide;
                    String::from_str("head~").concat(decimal_text(back as u32).as_str())
                } else {
                    decimal_text(wide as u32)
                }
            },
        }
    }
}

/// The path of the context of a block.
pub fn path(chain_id: &String, block_id: &BlockID) -> (path: String)
    ensures
        path@ == context_text(chain_id@, *block_id),
{
    let mut path = String::from_str("/chains/");
    path.append(chain_id.as_str());
    path.append("/blocks/");
    path.append(block_id.value().as_str());
    path.append("/context");
    path
}

/// How the body of a response is to be read.
#[derive(Debug, Clone, Copy, PartialEq, Eq, Structural)]
pub enum ResponseBody {
    /// The value that was asked for, as JSON.
    Value,
    /// The node's list of errors, as JSON.
    Errors,
    /// An error in plain text.
    PlainError,
}

/// How to read a response with the given status: one with status 200 holds
/// the value; any other holds errors, as JSON where `json` tells that the
/// content type says so, as plain text otherwise.
pub fn handle_response(status: u16, json: bool) -> (body: ResponseBody)
    ensures
        body == (if status == 200 {
            ResponseBody::Value
        } else if json {
            ResponseBody::Errors
        } else {
            ResponseBody::PlainError
        }),
{
    if status != 200 {
        if json {
            return ResponseBody::Errors;
        }
        return ResponseBody::PlainError;
    }
    ResponseBody::Value
}

/// A request ready to be sent: the path at the node, and the parameters of
/// the query.
#[derive(Debug, PartialEq, Eq)]
pub struct Request {
    pub path: String,
    pub query: Vec<(String, String)>,
}

/// The query that a choice about normalized types makes: one parameter
/// `normalize_types` where the choice was made, none where it was not.
pub open spec fn query_text(normalize_types: Option<bool>) -> Seq<(Seq<char>, Seq<char>)> {
    match normalize_types {
        Some(true) => seq![("normalize_types"@, "true"@)],
        Some(false) => seq![("normalize_types"@, "false"@)],
        None => Seq::empty(),
    }
}

/// The parameters of a query, each as its name and value.
pub open spec fn query_view(query: Seq<(String, String)>) -> Seq<(Seq<char>, Seq<char>)> {
    Seq::new(query.len(), |i: int| (query[i].0@, query[i].1@))
}

/// The query of a request with the given choice about normalized types.
pub fn normalize_types_query(normalize_types: Option<bool>) -> (query: Vec<(String, String)>)
    ensures
        query_view(query@) == query_text(normalize_types),
{
    let mut query: Vec<(String, String)> = Vec::new();
    if let Some(normalize_types) = normalize_types {
        let value = if normalize_types {
            String::from_str("true")
        } else {
            String::from_str("false")
        };
        query.push((String::from_str("normalize_types"), value));
    }
    assert(query_view(query@) =~= query_text(normalize_types));
    query
}

} // verus!
