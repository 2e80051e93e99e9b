use jolt_testing::chain::OutPoint;
use jolt_testing::rpc_client::{
    answer_state, cell_position, match_responses, view_state, AnswerState, ViewState, normalize_rpc_url, CellIndexError, Decoder, ResponseTable, RpcClient, RpcParam, DEFAULT_RPC_TIMEOUT_SECONDS,
};

fn str_param(p: &RpcParam) -> &str {
    match p {
        RpcParam::Str(s) => s.as_str(),
        _ => panic!("not a string parameter"),
    }
}

#[test]
fn urls_end_in_one_slash() {
    assert_eq!(normalize_rpc_url("https://mainnet.ckb.dev"), "https://mainnet.ckb.dev/");
    assert_eq!(normalize_rpc_url("http://localhost:8114///"), "http://localhost:8114/");
    assert_eq!(normalize_rpc_url(""), "/");
    assert_eq!(normalize_rpc_url("//"), "/");
}

#[test]
fn default_client() {
    let c = RpcClient::default();
    assert_eq!(c.rpc_url(), "https://mainnet.ckb.dev/");
    assert_eq!(c.timeout(), DEFAULT_RPC_TIMEOUT_SECONDS);
}

#[test]
fn request_ids_count_up() {
    let mut c = RpcClient::new("http://node", 5);
    assert_eq!(c.next_request_id(), 0);
    let call = c.get_transaction("0xabc");
    assert_eq!(call.request.id, 1);
    assert_eq!(c.next_request_id(), 2);
}

#[test]
fn transaction_request() {
    let mut c = RpcClient::new("http://node", 5);
    let call = c.get_transaction("0x01");
    assert_eq!(call.request.jsonrpc, "2.0");
    assert_eq!(call.request.method, "get_transaction");
    assert_eq!(call.request.params.len(), 3);
    assert_eq!(str_param(&call.request.params[0]), "0x01");
    assert_eq!(str_param(&call.request.params[1]), "0x2");
    assert!(matches!(call.request.params[2], RpcParam::Null));
    assert_eq!(call.request.output_index, None);
    assert_eq!(call.decode, Decoder::Transaction);
}

#[test]
fn cell_request_names_the_creating_transaction() {
    let mut c = RpcClient::new("http://node", 5);
    let mut h = [0x11u8; 32];
    h[0] = 0xf0;
    let call = c.get_cell_by_out_point(&OutPoint { tx_hash: h, index: 4 });
    assert_eq!(call.request.method, "get_transaction");
    assert_eq!(str_param(&call.request.params[0]), format!("0xf0{}", "11".repeat(31)));
    assert_eq!(call.request.output_index, Some(4));
    assert_eq!(call.decode, Decoder::CellByOutPoint);
}

#[test]
fn header_and_block_requests() {
    let mut c = RpcClient::new("http://node", 5);
    let h = c.get_header("0xaa");
    assert_eq!(h.request.method, "get_header");
    assert_eq!(str_param(&h.request.params[1]), "0x1");
    assert_eq!(h.decode, Decoder::Header);
    let b = c.get_block("0xbb", true);
    assert_eq!(b.request.method, "get_block");
    assert!(matches!(b.request.params[2], RpcParam::Bool(true)));
    let n = c.get_block_by_number(255, false);
    assert_eq!(n.request.method, "get_block_by_number");
    assert_eq!(str_param(&n.request.params[0]), "0xff");
    let z = c.get_block_by_number(0, false);
    assert_eq!(str_param(&z.request.params[0]), "0x0");
    let big = c.get_block_by_number(0x1234_5678_9abc, true);
    assert_eq!(str_param(&big.request.params[0]), format!("0x{:x}", 0x1234_5678_9abcu64));
    let l = c.get_live_cell(&OutPoint { tx_hash: [1; 32], index: 2 }, true, false);
    assert_eq!(l.request.method, "get_live_cell");
    assert_eq!(l.decode, Decoder::LiveCell);
    assert!(matches!(l.request.params[1], RpcParam::Bool(true)));
    assert!(matches!(l.request.params[2], RpcParam::Bool(false)));
}

#[test]
fn responses_are_claimed_by_id() {
    let mut table = ResponseTable::from_response_ids(&[7, 3, 9, 3]);
    assert_eq!(table.take(3), Some(3));
    assert_eq!(table.take(3), None);
    assert_eq!(table.take(9), Some(2));
    assert_eq!(table.take(7), Some(0));
    assert_eq!(table.take(1), None);
}

#[test]
fn batch_answers_are_paired_with_requests_by_id() {
    assert_eq!(match_responses(&[0, 1, 2], &[2, 0, 1]), vec![Some(1), Some(2), Some(0)]);
    assert_eq!(match_responses(&[5], &[5, 7, 5]), vec![Some(2)]);
    assert_eq!(match_responses(&[], &[1]), vec![]);
    assert_eq!(match_responses(&[0, 3], &[0, 1]), vec![Some(0), None]);
    assert_eq!(match_responses(&[3, 0], &[0, 1]), vec![None, Some(0)]);
    assert_eq!(match_responses(&[1, 1], &[1, 1]), vec![Some(1), None]);
}

#[test]
fn cell_positions_are_checked_output_first() {
    assert_eq!(cell_position(1, 2, 2), Ok(1));
    assert_eq!(cell_position(2, 2, 2), Err(CellIndexError::OutputOutOfBounds));
    assert_eq!(cell_position(5, 3, 1), Err(CellIndexError::OutputOutOfBounds));
    assert_eq!(cell_position(1, 3, 1), Err(CellIndexError::DataOutOfBounds));
    assert_eq!(cell_position(u32::MAX, usize::MAX, usize::MAX), Ok(u32::MAX as usize));
}

#[test]
fn node_errors_win_over_missing_results_and_views() {
    assert_eq!(answer_state(true, true), AnswerState::Failed);
    assert_eq!(answer_state(true, false), AnswerState::Failed);
    assert_eq!(answer_state(false, false), AnswerState::Empty);
    assert_eq!(answer_state(false, true), AnswerState::Present);
    assert_eq!(view_state(false, true), ViewState::Missing);
    assert_eq!(view_state(true, false), ViewState::HexForm);
    assert_eq!(view_state(true, true), ViewState::Json);
}
