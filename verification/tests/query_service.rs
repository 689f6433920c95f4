use block_insight_client::cheap_block_transaction::BlockTransaction;
use block_insight_client::encoded_transaction::{
    EncodedConfirmedTransactionWithStatusMeta, EncodedTransaction,
    EncodedTransactionWithStatusMeta, ParsedEncodedConfirmedTransactionWithStatusMeta,
    ParsedInstructionList, UiMessage, UiRawMessage, UiTransaction, UiTransactionStatusMeta,
};
use block_insight_client::filter_panel::{
    is_white_space, parse_list, split, trim, FilterContext,
};
use block_insight_client::filter_registry::FilterRegistry;
use block_insight_client::signature::{check_signature, ParseSignatureError};
use block_insight_client::transaction_filter::{
    AccountFilter, CircleSwapFilter, FilterKind, SignatureFilter, TransactionFilter,
    TransactionFilterContext, TransactionStatusFilter,
};
use block_insight_client::transaction_service::{
    ApiError, FetchTransactionParam, FetchTransactionsNearByParam, HandlingData, InspectingData,
    InspectingDataStatus, TransactionCmd, TransactionServiceModule, TransactionServiceState,
    TransactionServiceStatus,
};
use block_insight_client::workspace_state::{FetchRequest, WorkspaceState};
use std::rc::Rc;

const ZERO_SIGNATURE: &str = "1111111111111111111111111111111111111111111111111111111111111111";
const REAL_SIGNATURE: &str =
    "5VERv8NMvzbJMEkV8xnrLkEaWRtSz9CosKDYjCJjBRnbJLgp8uirBgmQpjKhoR4tjF3ZpRzrFmBV6UjKdiSZkQUW";

fn strings(items: &[&str]) -> Vec<String> {
    items.iter().map(|s| s.to_string()).collect()
}

fn encoded(signature: &str, accounts: &[&str], err: Option<&str>) -> EncodedTransactionWithStatusMeta {
    EncodedTransactionWithStatusMeta {
        transaction: EncodedTransaction::Json(UiTransaction {
            signatures: strings(&[signature]),
            message: UiMessage::Raw(UiRawMessage { account_keys: strings(accounts) }),
        }),
        meta: Some(UiTransactionStatusMeta {
            err: err.map(|e| e.to_string()),
            fee: 1,
            pre_balances: vec![],
            post_balances: vec![],
            log_messages: None,
            loaded_addresses: None,
            compute_units_consumed: None,
        }),
        instructions: Rc::new(ParsedInstructionList { instructions: vec![] }),
    }
}

fn confirmed(signature: &str) -> EncodedConfirmedTransactionWithStatusMeta {
    EncodedConfirmedTransactionWithStatusMeta {
        slot: 5,
        transaction: encoded(signature, &["A"], None),
        block_time: Some(50),
    }
}

fn parsed(signature: &str, accounts: &[&str]) -> ParsedEncodedConfirmedTransactionWithStatusMeta {
    ParsedEncodedConfirmedTransactionWithStatusMeta::from_encoded_transaction_with_status_meta(
        encoded(signature, accounts, None),
        1,
        None,
    )
}

fn blocks() -> Vec<BlockTransaction> {
    vec![
        BlockTransaction {
            slot: 100,
            block_time: Some(1000),
            block_height: Some(90),
            transactions: Some(vec![
                encoded("a", &["Acc1"], None),
                encoded("target", &["Acc2"], None),
            ]),
        },
        BlockTransaction { slot: 101, block_time: None, block_height: None, transactions: None },
        BlockTransaction {
            slot: 102,
            block_time: Some(1002),
            block_height: Some(92),
            transactions: Some(vec![encoded("b", &["Acc1", "Acc2"], Some("Failed"))]),
        },
    ]
}

fn include_accounts(accounts: &[&str]) -> TransactionFilter {
    TransactionFilter::Account(AccountFilter::Include(strings(accounts)))
}

fn registry(filters: Vec<TransactionFilter>) -> FilterRegistry {
    let mut registry = FilterRegistry::new();
    for filter in filters {
        registry.insert(filter);
    }
    registry
}

fn near_by(data: &Option<HandlingData>) -> Vec<(u64, Vec<String>)> {
    match data {
        Some(HandlingData::QueryNearby(groups)) => groups
            .iter()
            .map(|g| {
                (
                    g.slot,
                    g.transactions.iter().map(|t| t.get_signatures().unwrap()[0].clone()).collect(),
                )
            })
            .collect(),
        other => panic!("no range result: {:?}", other),
    }
}

fn failure() -> ApiError {
    ApiError { code: 500, message: "backend down".to_string() }
}

#[test]
fn a_new_service_is_idle_and_empty() {
    let state = TransactionServiceState::new();
    assert_eq!(state.transaction_focus, TransactionServiceModule::Query);
    assert_eq!(state.transaction_service_status, TransactionServiceStatus::Idle);
    assert!(state.handling_data.is_none());
    assert!(state.real_handling_data.is_none());
    assert!(state.inspecting_data.is_none());
    assert!(state.transaction_service_error.is_none());
    assert_eq!(state.transaction_filter_context, TransactionFilterContext::default());
    assert!(state.transaction_filter.is_empty());
}

#[test]
fn focus_turns_the_workspace_and_nothing_else() {
    let mut state = TransactionServiceState::new();
    state.focus(TransactionServiceModule::QueryNearby);
    assert_eq!(state.transaction_focus, TransactionServiceModule::QueryNearby);
    assert_eq!(state.transaction_service_status, TransactionServiceStatus::Idle);
}

#[test]
fn module_labels() {
    assert_eq!(TransactionServiceModule::Query.label(), "查询交易");
    assert_eq!(TransactionServiceModule::QueryNearby.label(), "查询邻近交易");
}

#[test]
fn set_active_is_a_no_op_on_the_current_status() {
    let item = InspectingData::SingleTransaction(parsed("s", &["A"]));
    let active = InspectingDataStatus::Active(item.clone());
    assert_eq!(active.clone().set_active_status(true), active);
    let inactive = InspectingDataStatus::InActive(item);
    assert_eq!(inactive.clone().set_active_status(false), inactive);
}

#[test]
fn set_active_flips_the_tag_and_keeps_the_item() {
    let item = InspectingData::SingleTransaction(parsed("s", &["A"]));
    let flipped = InspectingDataStatus::Active(item.clone()).set_active_status(false);
    assert_eq!(flipped, InspectingDataStatus::InActive(item.clone()));
    assert!(!flipped.is_active());
    assert_eq!(flipped.data_ref(), &item);
    let back = flipped.set_active_status(true);
    assert_eq!(back, InspectingDataStatus::Active(item.clone()));
    assert!(back.is_active());
    assert_eq!(back.data(), item);
}

#[test]
fn map_replaces_the_item_under_the_same_tag() {
    let other = InspectingData::SingleTransaction(parsed("other", &[]));
    let replacement = other.clone();
    let mapped = InspectingDataStatus::InActive(InspectingData::SingleTransaction(parsed("s", &[])))
        .map(move |_| replacement);
    assert_eq!(mapped, InspectingDataStatus::InActive(other));
}

#[test]
fn a_single_query_publishes_the_item_as_raw_and_visible() {
    let mut state = TransactionServiceState::new();
    state.insert_filter(include_accounts(&["Nobody"]));
    let param = state.begin_query("target".to_string());
    assert_eq!(param, FetchTransactionParam { signature: "target".to_string() });
    assert_eq!(
        state.transaction_service_status,
        TransactionServiceStatus::Processing(TransactionServiceModule::Query)
    );
    state.finish_query(Ok(confirmed("target")));
    assert_eq!(
        state.transaction_service_status,
        TransactionServiceStatus::Finish(TransactionServiceModule::Query)
    );
    let expected =
        HandlingData::Query(ParsedEncodedConfirmedTransactionWithStatusMeta::new(confirmed("target")));
    assert_eq!(state.handling_data, Some(expected.clone()));
    assert_eq!(state.real_handling_data, Some(expected));
    assert!(state.transaction_service_error.is_none());
}

#[test]
fn a_failed_single_query_publishes_nothing_and_keeps_the_error() {
    let mut state = TransactionServiceState::new();
    state.finish_query(Ok(confirmed("old")));
    state.begin_query("new".to_string());
    state.finish_query(Err(failure()));
    assert!(state.handling_data.is_none());
    assert!(state.real_handling_data.is_none());
    assert_eq!(state.transaction_service_error, Some(failure()));
    assert_eq!(
        state.transaction_service_status,
        TransactionServiceStatus::Finish(TransactionServiceModule::Query)
    );
    state.finish_query(Ok(confirmed("again")));
    assert!(state.transaction_service_error.is_none());
}

#[test]
fn a_range_query_publishes_raw_and_filtered_lists_and_tracks_the_target() {
    let mut state = TransactionServiceState::new();
    state.insert_filter(include_accounts(&["Acc1"]));
    let param = state.begin_query_near_by("target".to_string(), Some(2), None);
    assert_eq!(
        param,
        FetchTransactionsNearByParam {
            signature: "target".to_string(),
            backward: Some(2),
            forward: None
        }
    );
    assert_eq!(
        state.transaction_service_status,
        TransactionServiceStatus::Processing(TransactionServiceModule::QueryNearby)
    );
    state.finish_query_near_by(&"target".to_string(), Ok(blocks()));
    assert_eq!(
        state.transaction_service_status,
        TransactionServiceStatus::Finish(TransactionServiceModule::QueryNearby)
    );
    assert_eq!(
        near_by(&state.handling_data),
        vec![(100, strings(&["a", "target"])), (101, vec![]), (102, strings(&["b"]))]
    );
    assert_eq!(
        near_by(&state.real_handling_data),
        vec![(100, strings(&["a"])), (101, vec![]), (102, strings(&["b"]))]
    );
    match &state.inspecting_data {
        Some(InspectingDataStatus::Active(InspectingData::SingleTransaction(tx))) => {
            assert_eq!(tx.get_signatures(), Some(&strings(&["target"])));
            assert_eq!(tx.transaction.slot, 100);
            assert_eq!(tx.transaction.block_time, Some(1000));
        }
        other => panic!("not tracking the target: {:?}", other),
    }
    assert_eq!(state.transaction_filter_context, TransactionFilterContext { evaluated: 3, rejected: 1 });
    assert!(state.transaction_service_error.is_none());
}

#[test]
fn a_range_query_without_the_target_tracks_nothing() {
    let mut state = TransactionServiceState::new();
    state.inspecting_data = Some(InspectingDataStatus::Active(InspectingData::SingleTransaction(
        parsed("earlier", &[]),
    )));
    state.finish_query_near_by(&"absent".to_string(), Ok(blocks()));
    assert!(state.inspecting_data.is_none());
    assert_eq!(near_by(&state.real_handling_data), near_by(&state.handling_data));
}

#[test]
fn the_target_of_the_last_block_that_holds_it_is_tracked() {
    let mut state = TransactionServiceState::new();
    let mut data = blocks();
    data[2].transactions.as_mut().unwrap().push(encoded("target", &["Late"], None));
    state.finish_query_near_by(&"target".to_string(), Ok(data));
    match &state.inspecting_data {
        Some(InspectingDataStatus::Active(InspectingData::SingleTransaction(tx))) => {
            assert_eq!(tx.transaction.slot, 102);
        }
        other => panic!("not tracking the target: {:?}", other),
    }
}

#[test]
fn a_failed_range_query_clears_the_results_and_leaves_the_tracker() {
    let mut state = TransactionServiceState::new();
    state.insert_filter(include_accounts(&["Acc1"]));
    state.finish_query_near_by(&"target".to_string(), Ok(blocks()));
    let kept = state.inspecting_data.clone();
    let context = state.transaction_filter_context;
    assert!(kept.is_some());
    state.begin_query_near_by("target".to_string(), None, None);
    state.finish_query_near_by(&"target".to_string(), Err(failure()));
    assert!(state.handling_data.is_none());
    assert!(state.real_handling_data.is_none());
    assert_eq!(state.transaction_service_error, Some(failure()));
    assert_eq!(state.inspecting_data, kept);
    assert_eq!(state.transaction_filter_context, context);
    assert_eq!(
        state.transaction_service_status,
        TransactionServiceStatus::Finish(TransactionServiceModule::QueryNearby)
    );
}

#[test]
fn new_filters_regray_the_tracked_item_without_dropping_it() {
    let mut state = TransactionServiceState::new();
    state.finish_query_near_by(&"target".to_string(), Ok(blocks()));
    let item = match state.inspecting_data.clone().unwrap() {
        InspectingDataStatus::Active(item) => item,
        other => panic!("not active: {:?}", other),
    };
    state.set_and_apply_filters(registry(vec![include_accounts(&["Acc1"])]));
    assert_eq!(state.inspecting_data, Some(InspectingDataStatus::InActive(item.clone())));
    assert_eq!(
        near_by(&state.real_handling_data),
        vec![(100, strings(&["a"])), (101, vec![]), (102, strings(&["b"]))]
    );
    assert_eq!(
        near_by(&state.handling_data),
        vec![(100, strings(&["a", "target"])), (101, vec![]), (102, strings(&["b"]))]
    );
    state.set_and_apply_filters(registry(vec![include_accounts(&["Acc2"])]));
    assert_eq!(state.inspecting_data, Some(InspectingDataStatus::Active(item.clone())));
    assert_eq!(
        near_by(&state.real_handling_data),
        vec![(100, strings(&["target"])), (101, vec![]), (102, strings(&["b"]))]
    );
    state.set_and_apply_filters(FilterRegistry::new());
    assert_eq!(state.inspecting_data, Some(InspectingDataStatus::Active(item)));
    assert_eq!(near_by(&state.real_handling_data), near_by(&state.handling_data));
}

#[test]
fn filters_do_not_touch_the_result_of_a_single_query() {
    let mut state = TransactionServiceState::new();
    state.finish_query(Ok(confirmed("one")));
    let raw = state.handling_data.clone();
    state.set_and_apply_filters(registry(vec![include_accounts(&["Nobody"])]));
    assert_eq!(state.handling_data, raw);
    assert_eq!(state.real_handling_data, raw);
    assert_eq!(state.transaction_filter.len(), 1);
}

#[test]
fn filters_on_an_empty_service_only_replace_the_registry() {
    let mut state = TransactionServiceState::new();
    state.set_and_apply_filters(registry(vec![include_accounts(&["A"])]));
    assert!(state.handling_data.is_none());
    assert!(state.real_handling_data.is_none());
    assert_eq!(state.transaction_filter.as_slice().to_vec(), vec![include_accounts(&["A"])]);
}

#[test]
fn inserting_and_removing_filters_does_not_apply_them() {
    let mut state = TransactionServiceState::new();
    state.finish_query_near_by(&"target".to_string(), Ok(blocks()));
    state.insert_filter(include_accounts(&["Acc1"]));
    assert_eq!(near_by(&state.real_handling_data), near_by(&state.handling_data));
    state.apply_filters();
    assert_eq!(near_by(&state.real_handling_data)[0], (100, strings(&["a"])));
    state.remove_filter(FilterKind::Account);
    assert!(state.transaction_filter.is_empty());
    assert_eq!(near_by(&state.real_handling_data)[0], (100, strings(&["a"])));
    state.apply_filters();
    assert_eq!(near_by(&state.real_handling_data), near_by(&state.handling_data));
}

#[test]
fn well_formed_signatures_pass_the_check() {
    assert_eq!(check_signature(&ZERO_SIGNATURE.to_string()), Ok(()));
    assert_eq!(check_signature(&REAL_SIGNATURE.to_string()), Ok(()));
}

#[test]
fn malformed_signatures_are_told_apart() {
    assert_eq!(check_signature(&"".to_string()), Err(ParseSignatureError::WrongSize));
    assert_eq!(check_signature(&"111".to_string()), Err(ParseSignatureError::WrongSize));
    assert_eq!(check_signature(&"0OIl".to_string()), Err(ParseSignatureError::Invalid));
    let too_long = "1".repeat(89);
    assert_eq!(check_signature(&too_long), Err(ParseSignatureError::WrongSize));
    let mut bad_char = REAL_SIGNATURE.to_string();
    bad_char.replace_range(3..4, "I");
    assert_eq!(check_signature(&bad_char), Err(ParseSignatureError::Invalid));
}

#[test]
fn signature_errors_in_words() {
    assert_eq!(
        ParseSignatureError::WrongSize.message(),
        "string decoded to wrong size for signature"
    );
    assert_eq!(ParseSignatureError::Invalid.message(), "failed to decode string to signature");
}

#[test]
fn a_query_with_a_bad_signature_is_not_queued() {
    let mut workspace = WorkspaceState::start();
    assert_eq!(
        workspace.query_transaction("not a signature".to_string()),
        Err(ParseSignatureError::Invalid)
    );
    assert_eq!(
        workspace.query_transaction_near_by("abc".to_string(), Some(1), Some(1)),
        Err(ParseSignatureError::WrongSize)
    );
    assert!(workspace.transaction_service.is_empty());
    assert_eq!(workspace.next_command(), None);
}

#[test]
fn commands_are_taken_up_oldest_first_and_one_at_a_time() {
    let mut workspace = WorkspaceState::start();
    assert_eq!(workspace.query_transaction(ZERO_SIGNATURE.to_string()), Ok(()));
    assert_eq!(
        workspace.query_transaction_near_by(REAL_SIGNATURE.to_string(), Some(3), Some(4)),
        Ok(())
    );
    assert_eq!(
        workspace.transaction_service.iter().cloned().collect::<Vec<_>>(),
        vec![
            TransactionCmd::Query(ZERO_SIGNATURE.to_string()),
            TransactionCmd::QueryNearBy {
                signature: REAL_SIGNATURE.to_string(),
                backward: Some(3),
                forward: Some(4)
            }
        ]
    );
    assert_eq!(
        workspace.next_command(),
        Some(FetchRequest::Transaction(FetchTransactionParam {
            signature: ZERO_SIGNATURE.to_string()
        }))
    );
    assert_eq!(
        workspace.transaction_service_state.transaction_service_status,
        TransactionServiceStatus::Processing(TransactionServiceModule::Query)
    );
    // the first fetch is in flight: the second command has to wait
    assert_eq!(workspace.next_command(), None);
    assert_eq!(workspace.transaction_service.len(), 1);
    workspace.transaction_service_state.finish_query(Err(failure()));
    assert_eq!(
        workspace.next_command(),
        Some(FetchRequest::TransactionsNearBy(FetchTransactionsNearByParam {
            signature: REAL_SIGNATURE.to_string(),
            backward: Some(3),
            forward: Some(4)
        }))
    );
    assert_eq!(
        workspace.transaction_service_state.transaction_service_status,
        TransactionServiceStatus::Processing(TransactionServiceModule::QueryNearby)
    );
    workspace.transaction_service_state.finish_query_near_by(&REAL_SIGNATURE.to_string(), Ok(vec![]));
    assert_eq!(workspace.next_command(), None);
    assert!(workspace.transaction_service.is_empty());
}

#[test]
fn submit_goes_by_the_outcome_of_the_check() {
    let mut workspace = WorkspaceState::start();
    let cmd = TransactionCmd::Query("anything".to_string());
    assert_eq!(workspace.submit(cmd.clone(), Err(ParseSignatureError::Invalid)), Err(ParseSignatureError::Invalid));
    assert!(workspace.transaction_service.is_empty());
    assert_eq!(workspace.submit(cmd.clone(), Ok(())), Ok(()));
    assert_eq!(workspace.transaction_service.front(), Some(&cmd));
    let queue = WorkspaceState::start_transaction_service(&workspace.transaction_service_state);
    assert!(queue.is_empty());
}

#[test]
fn white_space_is_what_unicode_says() {
    for c in [' ', '\t', '\n', '\u{b}', '\u{c}', '\r', '\u{85}', '\u{a0}', '\u{1680}', '\u{2003}', '\u{2028}', '\u{2029}', '\u{202f}', '\u{205f}', '\u{3000}'] {
        assert!(is_white_space(c), "{:?}", c);
        assert!(c.is_whitespace());
    }
    for c in ['a', ',', '0', '\u{0}', '\u{200b}', '\u{feff}', '中'] {
        assert!(!is_white_space(c), "{:?}", c);
        assert!(!c.is_whitespace());
    }
}

#[test]
fn white_space_agrees_with_the_standard_library_on_every_character() {
    for code in 0..=0x10FFFFu32 {
        if let Some(c) = char::from_u32(code) {
            assert_eq!(is_white_space(c), c.is_whitespace(), "U+{:04X}", code);
        }
    }
}

#[test]
fn trim_removes_white_space_at_both_ends_only() {
    assert_eq!(trim("  a b \t\n"), "a b");
    assert_eq!(trim("a"), "a");
    assert_eq!(trim(""), "");
    assert_eq!(trim(" \u{3000} "), "");
    assert_eq!(trim("\u{3000}账户 一\u{a0}"), "账户 一");
    for s in ["  x  ", "x ", " x", "\r\n", "a  b"] {
        assert_eq!(trim(s), s.trim());
    }
}

#[test]
fn split_keeps_empty_pieces() {
    assert_eq!(split("a,b", ','), strings(&["a", "b"]));
    assert_eq!(split("a,,b", ','), strings(&["a", "", "b"]));
    assert_eq!(split(",a,", ','), strings(&["", "a", ""]));
    assert_eq!(split("abc", ','), strings(&["abc"]));
    assert_eq!(split("", ','), strings(&[""]));
    assert_eq!(split("账户,二", ','), strings(&["账户", "二"]));
    for s in ["a, b", ",,", "x"] {
        assert_eq!(split(s, ','), s.split(",").map(|p| p.to_string()).collect::<Vec<_>>());
    }
}

#[test]
fn a_blank_field_lists_nothing() {
    assert_eq!(parse_list(&"".to_string()), None);
    assert_eq!(parse_list(&"  \t ".to_string()), None);
    assert_eq!(parse_list(&" a, b ,c ".to_string()), Some(strings(&["a", " b ", "c"])));
    assert_eq!(parse_list(&",".to_string()), Some(strings(&["", ""])));
}

#[test]
fn the_panel_makes_only_the_ticked_filters() {
    let mut panel = FilterContext::new();
    assert_eq!(panel.make_account_filter(), None);
    assert_eq!(panel.make_signature_filter(), None);
    assert_eq!(panel.make_status_filter(), None);
    assert_eq!(panel.make_circle_swap_filter(), None);
    assert!(panel.collect().is_empty());
    panel.filtering_accounts = " Acc1,Acc2 ".to_string();
    assert_eq!(panel.make_account_filter(), None);
    panel.need_filter_account = true;
    assert_eq!(panel.make_account_filter(), Some(AccountFilter::Include(strings(&["Acc1", "Acc2"]))));
    panel.need_filter_signature = true;
    assert_eq!(panel.make_signature_filter(), None);
    panel.filtering_signatures = "sig".to_string();
    assert_eq!(panel.make_signature_filter(), Some(SignatureFilter::Include(strings(&["sig"]))));
    panel.need_filter_status = true;
    assert_eq!(panel.make_status_filter(), Some(TransactionStatusFilter::fail()));
    panel.filtering_status = true;
    assert_eq!(panel.make_status_filter(), Some(TransactionStatusFilter::success()));
    panel.need_filter_circle_swap = true;
    assert_eq!(panel.make_circle_swap_filter(), Some(CircleSwapFilter));
    assert_eq!(
        panel.collect().as_slice().to_vec(),
        vec![
            TransactionFilter::Status(TransactionStatusFilter::success()),
            TransactionFilter::Signature(SignatureFilter::Include(strings(&["sig"]))),
            TransactionFilter::Account(AccountFilter::Include(strings(&["Acc1", "Acc2"]))),
            TransactionFilter::CircleSwap(CircleSwapFilter),
        ]
    );
}

#[test]
fn collect_filter_skips_what_is_not_there() {
    let mut container = FilterRegistry::new();
    FilterContext::collect_filter(&mut container, None);
    assert!(container.is_empty());
    FilterContext::collect_filter(&mut container, Some(include_accounts(&["A"])));
    assert_eq!(container.as_slice().to_vec(), vec![include_accounts(&["A"])]);
}

#[test]
fn the_panel_applies_its_filters_to_the_service() {
    let mut state = TransactionServiceState::new();
    state.finish_query_near_by(&"target".to_string(), Ok(blocks()));
    let mut panel = FilterContext::new();
    panel.need_filter_account = true;
    panel.filtering_accounts = "Acc2".to_string();
    panel.need_filter_status = true;
    panel.filtering_status = true;
    panel.apply_filters(&mut state);
    assert_eq!(
        near_by(&state.real_handling_data),
        vec![(100, strings(&["target"])), (101, vec![]), (102, vec![])]
    );
    assert!(state.inspecting_data.as_ref().unwrap().is_active());
    assert_eq!(state.transaction_filter.len(), 2);
}
