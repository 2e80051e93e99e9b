//! CKB JSON-RPC requests: what to ask the node, and how to pair the answers
//! of a batch with the requests.
//!
//! Sending requests and decoding JSON answers is done by the caller; this
//! module builds each request (method, parameters, id) and matches a batch's
//! responses to its requests by id.
use crate::chain::OutPoint;
use crate::text::{hex_string_0x, push_char, str_to_string, push_hex_u64, spec_hex_bytes, spec_hex_u64};
use std::collections::HashMap;
use vstd::prelude::*;
use vstd::std_specs::hash::group_hash_axioms;
use vstd::string::StrSliceExecFns;
use vstd::string::StringExecFns;

verus! {

broadcast use group_hash_axioms;

/// Timeout, in seconds, of each RPC call.
pub const DEFAULT_RPC_TIMEOUT_SECONDS: u64 = 30;

/// Public RPC endpoint of the CKB main network.
pub const DEFAULT_RPC_URL_MAINNET: &'static str = "https://mainnet.ckb.dev";

/// Public RPC endpoint of the CKB test network.
pub const DEFAULT_RPC_URL_TESTNET: &'static str = "https://testnet.ckb.dev";

/// One positional parameter of a JSON-RPC request.
pub enum RpcParam {
    /// A JSON string.
    Str(String),
    /// A JSON boolean.
    Bool(bool),
    /// JSON `null`.
    Null,
    /// An out point, in the node's JSON form.
    OutPoint(OutPoint),
}

/// A JSON-RPC 2.0 request.
pub struct JsonRpcRequest {
    /// The protocol version, always `"2.0"`.
    pub jsonrpc: &'static str,
    /// The RPC method.
    pub method: &'static str,
    /// The positional parameters.
    pub params: Vec<RpcParam>,
    /// The request id, unique within a client.
    pub id: u64,
    /// For a cell lookup, the position of the cell among the outputs of the
    /// transaction the request fetches.
    pub output_index: Option<u32>,
}

/// How the answer to a request is decoded.
#[derive(Clone, Copy, Debug, PartialEq, Eq, Structural)]
pub enum Decoder {
    /// A transaction, given as JSON.
    Transaction,
    /// A live cell with its status.
    LiveCell,
    /// A block header, given as JSON.
    Header,
    /// A block, with the cycles of its transactions when the node reports them.
    Block,
    /// The output at `output_index` of the fetched transaction, its data, and
    /// the hash of the block that holds the transaction.
    CellByOutPoint,
}

/// A request together with the way its answer is decoded.
pub struct RpcCall {
    /// The request.
    pub request: JsonRpcRequest,
    /// The decoder of the answer.
    pub decode: Decoder,
}

/// `s` without its trailing `'/'` characters.
pub open spec fn trim_trailing_slashes(s: Seq<char>) -> Seq<char>
    decreases s.len(),
{
    if s.len() > 0 && s.last() == '/' {
        trim_trailing_slashes(s.drop_last())
    } else {
        s
    }
}

/// The parameter views of a request, with strings as character sequences.
pub open spec fn param_is_str(p: RpcParam, s: Seq<char>) -> bool {
    match p {
        RpcParam::Str(x) => x@ == s,
        _ => false,
    }
}

/// The parameters of a `get_transaction` or `get_block` request at verbosity 2
/// for `hash`, followed by `last`.
pub open spec fn params_hash_verbosity(params: Seq<RpcParam>, hash: Seq<char>, verbosity: Seq<char>) -> bool {
    &&& params.len() >= 2
    &&& param_is_str(params[0], hash)
    &&& param_is_str(params[1], verbosity)
}

/// A node endpoint and the ids its requests receive.
pub struct RpcClient {
    rpc_url: String,
    timeout: u64,
    next_id: u64,
}

/// `url` without trailing slashes, followed by exactly one slash.
pub fn normalize_rpc_url(url: &str) -> (r: String)
    ensures
        r@ == trim_trailing_slashes(url@).push('/'),
{
    let n = url.unicode_len();
    let mut end: usize = n;
    assert(url@.subrange(0, n as int) =~= url@);
    while end > 0 && url.get_char(end - 1) == '/'
        invariant
            end <= n,
            n == url@.len(),
            trim_trailing_slashes(url@) == trim_trailing_slashes(url@.subrange(0, end as int)),
        decreases end,
    {
        assert(url@.subrange(0, end as int).drop_last() =~= url@.subrange(0, end - 1));
        end = end - 1;
    }
    let kept = url.substring_char(0, end);
    let mut r = str_to_string(kept);
    push_char(&mut r, '/');
    r
}

impl RpcClient {
    /// The normalized endpoint URL.
    pub closed spec fn url(&self) -> Seq<char> {
        self.rpc_url@
    }

    /// The timeout in seconds.
    pub closed spec fn timeout_seconds(&self) -> u64 {
        self.timeout
    }

    /// The id the next request receives.
    pub closed spec fn next_id(&self) -> u64 {
        self.next_id
    }

    /// A client for `rpc_url` (normalized to end in exactly one slash), whose
    /// requests are numbered from zero.
    pub fn new(rpc_url: &str, timeout: u64) -> (c: Self)
        ensures
            c.url() == trim_trailing_slashes(rpc_url@).push('/'),
            c.timeout_seconds() == timeout,
            c.next_id() == 0,
    {
        RpcClient { rpc_url: normalize_rpc_url(rpc_url), timeout, next_id: 0 }
    }

    /// A client for the main network's public endpoint.
    pub fn default() -> (c: Self)
        ensures
            c.url() == trim_trailing_slashes(DEFAULT_RPC_URL_MAINNET@).push('/'),
            c.timeout_seconds() == DEFAULT_RPC_TIMEOUT_SECONDS,
            c.next_id() == 0,
    {
        Self::new(DEFAULT_RPC_URL_MAINNET, DEFAULT_RPC_TIMEOUT_SECONDS)
    }

    /// The endpoint URL.
    pub fn rpc_url(&self) -> (r: &str)
        ensures
            r@ == self.url(),
    {
        self.rpc_url.as_str()
    }

    /// The timeout in seconds.
    pub fn timeout(&self) -> (t: u64)
        ensures
            t == self.timeout_seconds(),
    {
        self.timeout
    }

    /// Hands out the next request id; ids count up from zero, wrapping at `u64::MAX`.
    pub fn next_request_id(&mut self) -> (id: u64)
        ensures
            id == old(self).next_id(),
            final(self).next_id() == next_id_after(old(self).next_id()),
            final(self).url() == old(self).url(),
            final(self).timeout_seconds() == old(self).timeout_seconds(),
    {
        let id = self.next_id;
        self.next_id = if id == u64::MAX { 0 } else { id + 1 };
        id
    }

    /// `get_transaction` for `tx_hash` (a `0x`-prefixed hex string) at verbosity 2.
    pub fn get_transaction(&mut self, tx_hash: &str) -> (c: RpcCall)
        ensures
            c.request.jsonrpc@ == "2.0"@,
            c.request.method@ == "get_transaction"@,
            c.request.params@.len() == 3,
            param_is_str(c.request.params@[0], tx_hash@),
            param_is_str(c.request.params@[1], "0x2"@),
            c.request.params@[2] is Null,
            c.request.id == old(self).next_id(),
            c.request.output_index is None,
            c.decode == Decoder::Transaction,
            final(self).next_id() == next_id_after(old(self).next_id()),
            final(self).url() == old(self).url(),
    {
        let mut params: Vec<RpcParam> = Vec::new();
        params.push(RpcParam::Str(str_to_string(tx_hash)));
        params.push(RpcParam::Str(str_to_string("0x2")));
        params.push(RpcParam::Null);
        let id = self.next_request_id();
        RpcCall {
            request: JsonRpcRequest {
                jsonrpc: "2.0",
                method: "get_transaction",
                params,
                id,
                output_index: None,
            },
            decode: Decoder::Transaction,
        }
    }

    /// `get_live_cell` for `out_point`, with or without the cell's data, and
    /// looking into the transaction pool or not.
    pub fn get_live_cell(&mut self, out_point: &OutPoint, with_data: bool, include_tx_pool: bool) -> (c: RpcCall)
        ensures
            c.request.jsonrpc@ == "2.0"@,
            c.request.method@ == "get_live_cell"@,
            c.request.params@.len() == 3,
            c.request.params@[0] == RpcParam::OutPoint(*out_point),
            c.request.params@[1] == RpcParam::Bool(with_data),
            c.request.params@[2] == RpcParam::Bool(include_tx_pool),
            c.request.id == old(self).next_id(),
            c.request.output_index is None,
            c.decode == Decoder::LiveCell,
            final(self).next_id() == next_id_after(old(self).next_id()),
            final(self).url() == old(self).url(),
    {
        let mut params: Vec<RpcParam> = Vec::new();
        params.push(RpcParam::OutPoint(*out_point));
        params.push(RpcParam::Bool(with_data));
        params.push(RpcParam::Bool(include_tx_pool));
        let id = self.next_request_id();
        RpcCall {
            request: JsonRpcRequest {
                jsonrpc: "2.0",
                method: "get_live_cell",
                params,
                id,
                output_index: None,
            },
            decode: Decoder::LiveCell,
        }
    }

    /// Resolves a cell: `get_transaction` for the transaction that created it
    /// (its hash as `0x` and 64 hex digits, verbosity 2), remembering the
    /// cell's position among that transaction's outputs.
    pub fn get_cell_by_out_point(&mut self, out_point: &OutPoint) -> (c: RpcCall)
        ensures
            c.request.jsonrpc@ == "2.0"@,
            c.request.method@ == "get_transaction"@,
            c.request.params@.len() == 3,
            param_is_str(c.request.params@[0], seq!['0', 'x'] + spec_hex_bytes(out_point.tx_hash@)),
            param_is_str(c.request.params@[1], "0x2"@),
            c.request.params@[2] is Null,
            c.request.id == old(self).next_id(),
            c.request.output_index == Some(out_point.index),
            c.decode == Decoder::CellByOutPoint,
            final(self).next_id() == next_id_after(old(self).next_id()),
            final(self).url() == old(self).url(),
    {
        let mut params: Vec<RpcParam> = Vec::new();
        params.push(RpcParam::Str(hex_string_0x(out_point.tx_hash.as_slice())));
        params.push(RpcParam::Str(str_to_string("0x2")));
        params.push(RpcParam::Null);
        let id = self.next_request_id();
        RpcCall {
            request: JsonRpcRequest {
                jsonrpc: "2.0",
                method: "get_transaction",
                params,
                id,
                output_index: Some(out_point.index),
            },
            decode: Decoder::CellByOutPoint,
        }
    }

    /// `get_header` for `block_hash` at verbosity 1 (JSON).
    pub fn get_header(&mut self, block_hash: &str) -> (c: RpcCall)
        ensures
            c.request.jsonrpc@ == "2.0"@,
            c.request.method@ == "get_header"@,
            c.request.params@.len() == 2,
            param_is_str(c.request.params@[0], block_hash@),
            param_is_str(c.request.params@[1], "0x1"@),
            c.request.id == old(self).next_id(),
            c.request.output_index is None,
            c.decode == Decoder::Header,
            final(self).next_id() == next_id_after(old(self).next_id()),
            final(self).url() == old(self).url(),
    {
        let mut params: Vec<RpcParam> = Vec::new();
        params.push(RpcParam::Str(str_to_string(block_hash)));
        params.push(RpcParam::Str(str_to_string("0x1")));
        let id = self.next_request_id();
        RpcCall {
            request: JsonRpcRequest {
                jsonrpc: "2.0",
                method: "get_header",
                params,
                id,
                output_index: None,
            },
            decode: Decoder::Header,
        }
    }

    /// `get_block` for `block_hash` at verbosity 2, asking for cycles or not.
    pub fn get_block(&mut self, block_hash: &str, with_cycles: bool) -> (c: RpcCall)
        ensures
            c.request.jsonrpc@ == "2.0"@,
            c.request.method@ == "get_block"@,
            c.request.params@.len() == 3,
            param_is_str(c.request.params@[0], block_hash@),
            param_is_str(c.request.params@[1], "0x2"@),
            c.request.params@[2] == RpcParam::Bool(with_cycles),
            c.request.id == old(self).next_id(),
            c.request.output_index is None,
            c.decode == Decoder::Block,
            final(self).next_id() == next_id_after(old(self).next_id()),
            final(self).url() == old(self).url(),
    {
        let mut params: Vec<RpcParam> = Vec::new();
        params.push(RpcParam::Str(str_to_string(block_hash)));
        params.push(RpcParam::Str(str_to_string("0x2")));
        params.push(RpcParam::Bool(with_cycles));
        let id = self.next_request_id();
        RpcCall {
            request: JsonRpcRequest {
                jsonrpc: "2.0",
                method: "get_block",
                params,
                id,
                output_index: None,
            },
            decode: Decoder::Block,
        }
    }

    /// `get_block_by_number` for `block_number` (sent as `0x` and its hex
    /// digits) at verbosity 2, asking for cycles or not.
    pub fn get_block_by_number(&mut self, block_number: u64, with_cycles: bool) -> (c: RpcCall)
        ensures
            c.request.jsonrpc@ == "2.0"@,
            c.request.method@ == "get_block_by_number"@,
            c.request.params@.len() == 3,
            param_is_str(c.request.params@[0], seq!['0', 'x'] + spec_hex_u64(block_number as nat)),
            param_is_str(c.request.params@[1], "0x2"@),
            c.request.params@[2] == RpcParam::Bool(with_cycles),
            c.request.id == old(self).next_id(),
            c.request.output_index is None,
            c.decode == Decoder::Block,
            final(self).next_id() == next_id_after(old(self).next_id()),
            final(self).url() == old(self).url(),
    {
        let mut number = String::new();
        push_char(&mut number, '0');
        push_char(&mut number, 'x');
        push_hex_u64(&mut number, block_number);
        assert(number@ =~= seq!['0', 'x'] + spec_hex_u64(block_number as nat));
        let mut params: Vec<RpcParam> = Vec::new();
        params.push(RpcParam::Str(number));
        params.push(RpcParam::Str(str_to_string("0x2")));
        params.push(RpcParam::Bool(with_cycles));
        let id = self.next_request_id();
        RpcCall {
            request: JsonRpcRequest {
                jsonrpc: "2.0",
                method: "get_block_by_number",
                params,
                id,
                output_index: None,
            },
            decode: Decoder::Block,
        }
    }
}

/// The id after `id`: one more, wrapping at `u64::MAX`.
pub open spec fn next_id_after(id: u64) -> u64 {
    if id == u64::MAX {
        0
    } else {
        (id + 1) as u64
    }
}

/// The id a client made by [`RpcClient::new`] hands out at its `n`-th
/// request, counting from 0.
pub open spec fn nth_request_id(n: nat) -> u64
    decreases n,
{
    if n == 0 {
        0
    } else {
        next_id_after(nth_request_id((n - 1) as nat))
    }
}

/// A new client's request ids count up from 0: its `n`-th id is `n` for
/// every `n` below 2^64, so the ids one client hands out are pairwise
/// distinct, which pairing a batch's answers by id relies on.
pub proof fn lemma_request_ids_count_up(n: nat)
    requires
        n <= u64::MAX,
    ensures
        nth_request_id(n) == n,
        forall|m: nat| m < n ==> nth_request_id(m) != nth_request_id(n),
    decreases n,
{
    if n > 0 {
        lemma_request_ids_count_up((n - 1) as nat);
        assert forall|m: nat| m < n implies nth_request_id(m) != nth_request_id(n) by {
            lemma_request_ids_count_up(m);
        }
    }
}

/// Why a cell cannot be read from the transaction that created it.
#[derive(Clone, Copy, Debug, PartialEq, Eq, Structural)]
pub enum CellIndexError {
    /// The transaction has no output at the index.
    OutputOutOfBounds,
    /// The transaction has no output data at the index.
    DataOutOfBounds,
}

/// Where output `index` sits in a transaction with `n_outputs` outputs and
/// `n_data` output data entries: the index itself when both the output and
/// its data exist; otherwise which is missing, the output checked first.
pub fn cell_position(index: u32, n_outputs: usize, n_data: usize) -> (r: Result<usize, CellIndexError>)
    ensures
        r == (if index >= n_outputs {
            Err::<usize, CellIndexError>(CellIndexError::OutputOutOfBounds)
        } else if index >= n_data {
            Err(CellIndexError::DataOutOfBounds)
        } else {
            Ok(index as usize)
        }),
{
    let i = index as usize;
    if i >= n_outputs {
        Err(CellIndexError::OutputOutOfBounds)
    } else if i >= n_data {
        Err(CellIndexError::DataOutOfBounds)
    } else {
        Ok(i)
    }
}

/// The response position that answers `id`: the last response carrying it.
pub open spec fn last_with_id(ids: Seq<u64>, id: u64, n: int) -> Option<usize>
    decreases n,
{
    if n <= 0 {
        None
    } else if ids[n - 1] == id {
        Some((n - 1) as usize)
    } else {
        last_with_id(ids, id, n - 1)
    }
}

/// The map from id to the position of the last response carrying it.
pub open spec fn response_map(ids: Seq<u64>, n: int) -> Map<u64, usize>
    decreases n,
{
    if n <= 0 {
        Map::empty()
    } else {
        response_map(ids, n - 1).insert(ids[n - 1], (n - 1) as usize)
    }
}

/// The responses of a batch, indexed by their ids, each of which can be
/// claimed once.
pub struct ResponseTable {
    by_id: HashMap<u64, usize>,
}

impl View for ResponseTable {
    type V = Map<u64, usize>;

    closed spec fn view(&self) -> Map<u64, usize> {
        self.by_id@
    }
}

impl ResponseTable {
    /// Indexes a batch's responses by id, given each response's id in order;
    /// of several responses with one id, the last one counts.
    pub fn from_response_ids(ids: &[u64]) -> (t: Self)
        requires
            ids@.len() <= usize::MAX,
        ensures
            t@ == response_map(ids@, ids@.len() as int),
    {
        let mut by_id: HashMap<u64, usize> = HashMap::new();
        let mut i: usize = 0;
        while i < ids.len()
            invariant
                i <= ids@.len(),
                by_id@ == response_map(ids@, i as int),
            decreases ids@.len() - i,
        {
            by_id.insert(ids[i], i);
            i = i + 1;
        }
        ResponseTable { by_id }
    }

    /// Claims the response for `id`: its position, which no later claim
    /// returns again, or `None` if there is none (left).
    pub fn take(&mut self, id: u64) -> (r: Option<usize>)
        ensures
            r == (if old(self)@.contains_key(id) { Some(old(self)@[id]) } else { None }),
            final(self)@ == old(self)@.remove(id),
    {
        self.by_id.remove(&id)
    }
}

/// What a JSON-RPC answer holds, checked before its result is decoded.
#[derive(Clone, Copy, Debug, PartialEq, Eq, Structural)]
pub enum AnswerState {
    /// The node reported an error.
    Failed,
    /// The answer has no result (`null`).
    Empty,
    /// The answer carries a result to decode.
    Present,
}

/// The first check on an answer: an error reported by the node wins over a
/// missing result.
pub fn answer_state(has_error: bool, has_result: bool) -> (s: AnswerState)
    ensures
        s == (if has_error {
            AnswerState::Failed
        } else if has_result {
            AnswerState::Present
        } else {
            AnswerState::Empty
        }),
{
    if has_error {
        AnswerState::Failed
    } else if has_result {
        AnswerState::Present
    } else {
        AnswerState::Empty
    }
}

/// What a decoded result offers of the view asked for.
#[derive(Clone, Copy, Debug, PartialEq, Eq, Structural)]
pub enum ViewState {
    /// The view is absent (not found, or the verbosity was too low).
    Missing,
    /// The view came as hex-encoded bytes, which are not used here.
    HexForm,
    /// The view came as JSON.
    Json,
}

/// Which view a decoded result offers: absence wins over the form.
pub fn view_state(present: bool, json_form: bool) -> (s: ViewState)
    ensures
        s == (if !present {
            ViewState::Missing
        } else if json_form {
            ViewState::Json
        } else {
            ViewState::HexForm
        }),
{
    if !present {
        ViewState::Missing
    } else if json_form {
        ViewState::Json
    } else {
        ViewState::HexForm
    }
}

/// The response that request `k` of a batch claims when the requests claim
/// responses in order: the last response carrying its id, unless an earlier
/// request with the same id has claimed it already.
pub open spec fn claim(request_ids: Seq<u64>, response_ids: Seq<u64>, k: int) -> Option<usize> {
    let m = response_map(response_ids, response_ids.len() as int);
    if m.contains_key(request_ids[k]) && !request_ids.subrange(0, k).contains(request_ids[k]) {
        Some(m[request_ids[k]])
    } else {
        None
    }
}

/// Pairs the requests of a batch with its responses by id, in request
/// order: for each request, the response it claims ([`claim`]), or `None`
/// when none is left for it.  Each claimed response carries the request's id,
/// and no response is claimed twice.
pub fn match_responses(request_ids: &[u64], response_ids: &[u64]) -> (r: Vec<Option<usize>>)
    ensures
        r@.len() == request_ids@.len(),
        forall|k: int| #![trigger r@[k]] 0 <= k < r@.len() ==> {
            &&& r@[k] == claim(request_ids@, response_ids@, k)
            &&& r@[k] matches Some(p) ==> p < response_ids@.len() && response_ids@[p as int] == request_ids@[k]
        },
        forall|a: int, b: int| 0 <= a < r@.len() && 0 <= b < r@.len() && a != b && r@[a] is Some
            ==> #[trigger] r@[a] != #[trigger] r@[b],
{
    let n_responses: usize = response_ids.len();
    let ghost m = response_map(response_ids@, response_ids@.len() as int);
    let ghost req = request_ids@;
    let mut table = ResponseTable::from_response_ids(response_ids);
    let mut out: Vec<Option<usize>> = Vec::new();
    let mut i: usize = 0;
    while i < request_ids.len()
        invariant
            i <= req.len(),
            req == request_ids@,
            m == response_map(response_ids@, response_ids@.len() as int),
            forall|id: u64| #[trigger] table@.contains_key(id) <==> (m.contains_key(id) && !req.subrange(0, i as int).contains(id)),
            forall|id: u64| #[trigger] table@.contains_key(id) ==> table@[id] == m[id],
            out@.len() == i,
            forall|k: int| 0 <= k < i ==> #[trigger] out@[k] == claim(req, response_ids@, k),
        decreases req.len() - i,
    {
        let id = request_ids[i];
        let ghost before = table@;
        let got = table.take(id);
        out.push(got);
        proof {
            let pre = req.subrange(0, i as int);
            let nxt = req.subrange(0, i + 1);
            assert(nxt =~= pre.push(id));
            assert(before.contains_key(id) <==> (m.contains_key(id) && !pre.contains(id)));
            assert(out@[i as int] == claim(req, response_ids@, i as int));
            assert forall|x: u64| #[trigger] table@.contains_key(x) <==> (m.contains_key(x) && !nxt.contains(x)) by {
                assert(before.contains_key(x) <==> (m.contains_key(x) && !pre.contains(x)));
                assert(table@.contains_key(x) <==> (before.contains_key(x) && x != id));
                assert(nxt[i as int] == id);
                if nxt.contains(x) && x != id {
                    let j = choose|j: int| 0 <= j < nxt.len() && nxt[j] == x;
                    assert(pre[j] == x);
                }
                if pre.contains(x) {
                    let j = choose|j: int| 0 <= j < pre.len() && pre[j] == x;
                    assert(nxt[j] == x);
                }
            }
            assert forall|x: u64| #[trigger] table@.contains_key(x) implies table@[x] == m[x] by {
                assert(before.contains_key(x));
            }
        }
        i = i + 1;
    }
    proof {
        assert(response_ids@.len() == n_responses);
        assert forall|k: int| #![trigger out@[k]] 0 <= k < out@.len() implies {
            &&& out@[k] == claim(req, response_ids@, k)
            &&& out@[k] matches Some(p) ==> p < response_ids@.len() && response_ids@[p as int] == req[k]
        } by {
            lemma_response_map_is_last(response_ids@, req[k], response_ids@.len() as int);
        }
        assert forall|a: int, b: int| 0 <= a < out@.len() && 0 <= b < out@.len() && a != b && out@[a] is Some
            implies #[trigger] out@[a] != #[trigger] out@[b] by {
            if out@[a] == out@[b] {
                lemma_response_map_is_last(response_ids@, req[a], response_ids@.len() as int);
                lemma_response_map_is_last(response_ids@, req[b], response_ids@.len() as int);
                assert(req[a] == req[b]);
                if a < b {
                    assert(req.subrange(0, b)[a] == req[a]);
                } else {
                    assert(req.subrange(0, a)[b] == req[b]);
                }
            }
        }
    }
    out
}

/// Why a request of a batch gets no answer.
#[derive(Clone, Copy, Debug, PartialEq, Eq, Structural)]
pub enum BatchFailure {
    /// No response was left for it.
    Missing,
    /// Its response could not be decoded.
    Undecodable,
}

/// The first request of a batch, in request order, that gets no answer:
/// `claims[k]` is the response request `k` claimed ([`match_responses`]) and
/// `decoded[k]` whether that response decoded.  `None` when every request
/// has a decoded answer.
pub fn first_batch_failure(claims: &Vec<Option<usize>>, decoded: &Vec<bool>) -> (r: Option<(usize, BatchFailure)>)
    requires
        claims@.len() == decoded@.len(),
    ensures
        match r {
            None => forall|k: int| 0 <= k < claims@.len() ==> (#[trigger] claims@[k]) is Some && decoded@[k],
            Some((k, f)) => {
                &&& k < claims@.len()
                &&& forall|j: int| 0 <= j < k ==> (#[trigger] claims@[j]) is Some && decoded@[j]
                &&& (f == BatchFailure::Missing) == (claims@[k as int] is None)
                &&& f == BatchFailure::Undecodable ==> !decoded@[k as int]
            },
        },
{
    let mut k: usize = 0;
    while k < claims.len()
        invariant
            k <= claims@.len(),
            claims@.len() == decoded@.len(),
            forall|j: int| 0 <= j < k ==> (#[trigger] claims@[j]) is Some && decoded@[j],
        decreases claims@.len() - k,
    {
        match claims[k] {
            None => return Some((k, BatchFailure::Missing)),
            Some(_) => {
                if !decoded[k] {
                    return Some((k, BatchFailure::Undecodable));
                }
            },
        }
        k = k + 1;
    }
    None
}

proof fn lemma_last_with_id_found(ids: Seq<u64>, id: u64, n: int, j: int)
    requires
        0 <= j < n <= ids.len(),
        ids[j] == id,
    ensures
        last_with_id(ids, id, n) is Some,
    decreases n,
{
    if ids[n - 1] != id {
        lemma_last_with_id_found(ids, id, n - 1, j);
    }
}

proof fn lemma_claimable(ids: Seq<u64>, id: u64)
    requires
        ids.len() <= usize::MAX,
    ensures
        response_map(ids, ids.len() as int).contains_key(id) <==> ids.contains(id),
{
    lemma_response_map_is_last(ids, id, ids.len() as int);
    if ids.contains(id) {
        let j = choose|j: int| 0 <= j < ids.len() && ids[j] == id;
        lemma_last_with_id_found(ids, id, ids.len() as int, j);
    }
}

/// Pairing a batch's answers does not depend on the order in which the node
/// sends them: for two response lists that hold the same ids, each once, a
/// request is answered under one exactly when it is under the other, and by
/// the response carrying its own id.
pub proof fn lemma_claim_ignores_response_order(request_ids: Seq<u64>, first: Seq<u64>, second: Seq<u64>, k: int)
    requires
        0 <= k < request_ids.len(),
        first.no_duplicates(),
        second.no_duplicates(),
        first.to_set() == second.to_set(),
        first.len() <= usize::MAX,
        second.len() <= usize::MAX,
    ensures
        claim(request_ids, first, k) is Some <==> claim(request_ids, second, k) is Some,
        claim(request_ids, first, k) matches Some(p) ==> p < first.len() && first[p as int] == request_ids[k],
        claim(request_ids, second, k) matches Some(q) ==> q < second.len() && second[q as int] == request_ids[k],
{
    let id = request_ids[k];
    lemma_claimable(first, id);
    lemma_claimable(second, id);
    assert(first.contains(id) == first.to_set().contains(id));
    assert(second.contains(id) == second.to_set().contains(id));
    lemma_response_map_is_last(first, id, first.len() as int);
    lemma_response_map_is_last(second, id, second.len() as int);
}

/// The position recorded for an id is that of the last response carrying it.
pub proof fn lemma_response_map_is_last(ids: Seq<u64>, id: u64, n: int)
    requires
        0 <= n <= ids.len(),
        ids.len() <= usize::MAX,
    ensures
        response_map(ids, n).contains_key(id) <==> last_with_id(ids, id, n) is Some,
        response_map(ids, n).contains_key(id) ==> Some(response_map(ids, n)[id]) == last_with_id(ids, id, n),
        last_with_id(ids, id, n) matches Some(j) ==> j < n && ids[j as int] == id,
    decreases n,
{
    if n > 0 {
        lemma_response_map_is_last(ids, id, n - 1);
    }
}

/// Claiming the response for an id twice yields nothing the second time.
pub proof fn lemma_take_twice(m: Map<u64, usize>, id: u64)
    ensures
        !m.remove(id).contains_key(id),
{
}

} // verus!
