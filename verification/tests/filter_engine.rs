use block_insight_client::cheap_block_transaction::{BlockTransaction, CheapBlockTransaction};
use block_insight_client::encoded_transaction::{
    EncodedConfirmedTransactionWithStatusMeta, EncodedTransaction,
    EncodedTransactionWithStatusMeta, ParsedEncodedConfirmedTransactionWithStatusMeta,
    ParsedInstruction, ParsedInstructionList, TransactionAccounts, UiLoadedAddresses, UiMessage,
    UiRawMessage, UiTransaction, UiTransactionStatusMeta,
};
use block_insight_client::filter_engine::{apply, do_apply_filters, filter_one, filter_transaction};
use block_insight_client::filter_registry::FilterRegistry;
use block_insight_client::transaction_filter::{
    AccountFilter, CircleSwapFilter, FilterKind, SignatureFilter, TransactionFilter,
    TransactionFilterContext, TransactionStatusFilter,
};
use std::rc::Rc;

fn strings(items: &[&str]) -> Vec<String> {
    items.iter().map(|s| s.to_string()).collect()
}

fn meta(err: Option<&str>, loaded: Option<(&[&str], &[&str])>) -> UiTransactionStatusMeta {
    UiTransactionStatusMeta {
        err: err.map(|e| e.to_string()),
        fee: 5000,
        pre_balances: vec![10, 20],
        post_balances: vec![5, 25],
        log_messages: Some(strings(&["log"])),
        loaded_addresses: loaded.map(|(w, r)| UiLoadedAddresses {
            writable: strings(w),
            readonly: strings(r),
        }),
        compute_units_consumed: Some(150),
    }
}

fn encoded(
    signature: &str,
    accounts: &[&str],
    meta: Option<UiTransactionStatusMeta>,
    instructions: Vec<ParsedInstruction>,
) -> EncodedTransactionWithStatusMeta {
    EncodedTransactionWithStatusMeta {
        transaction: EncodedTransaction::Json(UiTransaction {
            signatures: strings(&[signature]),
            message: UiMessage::Raw(UiRawMessage { account_keys: strings(accounts) }),
        }),
        meta,
        instructions: Rc::new(ParsedInstructionList { instructions }),
    }
}

fn parsed(
    signature: &str,
    accounts: &[&str],
    err: Option<&str>,
) -> ParsedEncodedConfirmedTransactionWithStatusMeta {
    ParsedEncodedConfirmedTransactionWithStatusMeta::from_encoded_transaction_with_status_meta(
        encoded(signature, accounts, Some(meta(err, None)), vec![]),
        7,
        Some(1_700_000_000),
    )
}

fn swap(from: &str, to: &str) -> ParsedInstruction {
    ParsedInstruction::Swap { source_mint: from.to_string(), destination_mint: to.to_string() }
}

fn with_instructions(
    signature: &str,
    instructions: Vec<ParsedInstruction>,
) -> ParsedEncodedConfirmedTransactionWithStatusMeta {
    ParsedEncodedConfirmedTransactionWithStatusMeta::from_encoded_transaction_with_status_meta(
        encoded(signature, &["Payer"], Some(meta(None, None)), instructions),
        7,
        None,
    )
}

fn group(
    slot: u64,
    transactions: Vec<ParsedEncodedConfirmedTransactionWithStatusMeta>,
) -> CheapBlockTransaction {
    CheapBlockTransaction {
        slot,
        block_time: Some(1_700_000_000 + slot as i64),
        block_height: Some(slot - 1),
        transactions: Rc::new(transactions),
    }
}

fn registry(filters: Vec<TransactionFilter>) -> FilterRegistry {
    let mut registry = FilterRegistry::new();
    for filter in filters {
        registry.insert(filter);
    }
    registry
}

fn include_accounts(accounts: &[&str]) -> TransactionFilter {
    TransactionFilter::Account(AccountFilter::Include(strings(accounts)))
}

fn include_signatures(signatures: &[&str]) -> TransactionFilter {
    TransactionFilter::Signature(SignatureFilter::Include(strings(signatures)))
}

fn sample() -> Vec<CheapBlockTransaction> {
    vec![
        group(
            10,
            vec![
                parsed("s1", &["Acc1", "Acc2"], None),
                parsed("s2", &["Acc3"], Some("InsufficientFunds")),
                parsed("s3", &["Acc1"], Some("Custom")),
            ],
        ),
        group(11, vec![]),
        group(12, vec![parsed("s4", &["Acc2"], None), parsed("s5", &["Acc1", "Acc3"], None)]),
    ]
}

fn signatures_of(groups: &[CheapBlockTransaction]) -> Vec<Vec<String>> {
    groups
        .iter()
        .map(|g| {
            g.transactions
                .iter()
                .map(|t| t.get_signatures().unwrap()[0].clone())
                .collect()
        })
        .collect()
}

#[test]
fn empty_registry_returns_the_input_unchanged() {
    let data = sample();
    let shown = apply(&data, &FilterRegistry::new());
    assert_eq!(shown, data);
}

#[test]
fn empty_registry_leaves_the_context_untouched() {
    let data = sample();
    let mut context = TransactionFilterContext { evaluated: 3, rejected: 1 };
    let shown = do_apply_filters(&data, &mut context, &FilterRegistry::new());
    assert_eq!(shown, data);
    assert_eq!(context, TransactionFilterContext { evaluated: 3, rejected: 1 });
}

#[test]
fn empty_input_stays_empty() {
    let data: Vec<CheapBlockTransaction> = Vec::new();
    let shown = apply(&data, &registry(vec![include_accounts(&["Acc1"])]));
    assert!(shown.is_empty());
}

#[test]
fn account_filter_keeps_the_two_transactions_that_reference_the_account() {
    let data = vec![group(
        42,
        vec![
            parsed("a", &["Acc1", "Other"], None),
            parsed("b", &["Nobody"], None),
            parsed("c", &["Third", "Acc1"], None),
        ],
    )];
    let shown = apply(&data, &registry(vec![include_accounts(&["Acc1"])]));
    assert_eq!(shown.len(), 1);
    assert_eq!(shown[0].slot, 42);
    assert_eq!(shown[0].block_time, Some(1_700_000_042));
    assert_eq!(shown[0].block_height, Some(41));
    assert_eq!(signatures_of(&shown), vec![strings(&["a", "c"])]);
    assert_eq!(shown[0].transactions[0], data[0].transactions[0]);
    assert_eq!(shown[0].transactions[1], data[0].transactions[2]);
}

#[test]
fn every_group_is_kept_even_when_it_ends_up_empty() {
    let shown = apply(&sample(), &registry(vec![include_accounts(&["Acc3"])]));
    assert_eq!(signatures_of(&shown), vec![strings(&["s2"]), strings(&[]), strings(&["s5"])]);
    assert_eq!(shown[1].slot, 11);
    assert_eq!(shown[1].block_height, Some(10));
}

#[test]
fn a_transaction_is_kept_exactly_when_every_filter_accepts_it() {
    let data = sample();
    let filters = registry(vec![
        TransactionFilter::Status(TransactionStatusFilter::success()),
        include_accounts(&["Acc1"]),
    ]);
    let shown = apply(&data, &filters);
    for (g, group) in data.iter().enumerate() {
        for transaction in group.transactions.iter() {
            let kept = shown[g].transactions.contains(transaction);
            assert_eq!(kept, filter_one(transaction, &filters));
        }
    }
    assert_eq!(signatures_of(&shown), vec![strings(&["s1"]), strings(&[]), strings(&["s5"])]);
}

#[test]
fn removing_a_filter_never_hides_a_transaction() {
    let data = sample();
    let mut filters = registry(vec![
        TransactionFilter::Status(TransactionStatusFilter::fail()),
        include_accounts(&["Acc1"]),
        include_signatures(&["s3", "s4"]),
    ]);
    let narrow = apply(&data, &filters);
    assert_eq!(signatures_of(&narrow), vec![strings(&["s3"]), strings(&[]), strings(&[])]);
    for kind in [FilterKind::Status, FilterKind::Account, FilterKind::Signature] {
        let mut fewer = registry(filters.as_slice().to_vec());
        fewer.remove(kind);
        let wide = apply(&data, &fewer);
        for (g, group) in narrow.iter().enumerate() {
            for transaction in group.transactions.iter() {
                assert!(wide[g].transactions.contains(transaction));
            }
        }
    }
    filters.remove(FilterKind::Status);
    filters.remove(FilterKind::Account);
    filters.remove(FilterKind::Signature);
    assert_eq!(apply(&data, &filters), data);
}

#[test]
fn two_passes_over_the_same_data_agree() {
    let data = sample();
    let filters = registry(vec![include_accounts(&["Acc1", "Acc2"])]);
    let first = apply(&data, &filters);
    let second = apply(&data, &filters);
    assert_eq!(first, second);
    let mut used = TransactionFilterContext { evaluated: 99, rejected: 98 };
    assert_eq!(do_apply_filters(&data, &mut used, &filters), first);
}

#[test]
fn a_second_pass_over_the_visible_result_changes_nothing() {
    let filters = registry(vec![
        include_accounts(&["Acc1"]),
        TransactionFilter::Status(TransactionStatusFilter::success()),
    ]);
    let once = apply(&sample(), &filters);
    let twice = apply(&once, &filters);
    assert_eq!(twice, once);
}

#[test]
fn the_context_counts_every_evaluation_up_to_the_first_refusal() {
    let data = sample();
    let filters = registry(vec![
        TransactionFilter::Status(TransactionStatusFilter::success()),
        include_accounts(&["Acc1"]),
    ]);
    let mut context = TransactionFilterContext::default();
    do_apply_filters(&data, &mut context, &filters);
    // s1: status ok, account ok (2 asked). s2, s3: status refuses (1 asked, 1 refused each).
    // s4: status ok, account refuses (2 asked, 1 refused). s5: both ok (2 asked).
    assert_eq!(context, TransactionFilterContext { evaluated: 8, rejected: 3 });
}

#[test]
fn the_order_of_registration_is_the_order_of_evaluation() {
    let data = sample();
    let filters = registry(vec![
        include_accounts(&["Acc1"]),
        TransactionFilter::Status(TransactionStatusFilter::success()),
    ]);
    let mut context = TransactionFilterContext::default();
    let shown = do_apply_filters(&data, &mut context, &filters);
    // s1: 2 asked. s2: account refuses. s3: account ok, status refuses. s4: account refuses.
    // s5: 2 asked.
    assert_eq!(context, TransactionFilterContext { evaluated: 8, rejected: 3 });
    assert_eq!(signatures_of(&shown), vec![strings(&["s1"]), strings(&[]), strings(&["s5"])]);
    let mut one = TransactionFilterContext::default();
    assert!(!filter_transaction(&data[0].transactions[1], &mut one, &filters));
    assert_eq!(one, TransactionFilterContext { evaluated: 1, rejected: 1 });
}

#[test]
fn the_counters_stop_at_the_largest_value() {
    let mut context = TransactionFilterContext { evaluated: u64::MAX, rejected: u64::MAX - 1 };
    context.record(false);
    assert_eq!(context, TransactionFilterContext { evaluated: u64::MAX, rejected: u64::MAX });
    context.record(false);
    assert_eq!(context, TransactionFilterContext { evaluated: u64::MAX, rejected: u64::MAX });
}

#[test]
fn a_fresh_context_has_counted_nothing() {
    assert_eq!(
        TransactionFilterContext::default(),
        TransactionFilterContext { evaluated: 0, rejected: 0 }
    );
}

#[test]
fn account_filter_accepts_any_of_the_listed_accounts() {
    let filter = AccountFilter::Include(strings(&["Nope", "Acc2"]));
    let mut context = TransactionFilterContext::default();
    assert!(filter.filter(&parsed("s", &["Acc1", "Acc2"], None), &mut context));
    assert!(!filter.filter(&parsed("s", &["Acc1"], None), &mut context));
    assert!(!AccountFilter::Include(vec![]).filter(&parsed("s", &["Acc1"], None), &mut context));
    assert_eq!(context, TransactionFilterContext { evaluated: 3, rejected: 2 });
    assert_eq!(filter.id(), FilterKind::Account);
}

#[test]
fn account_filter_sees_loaded_addresses() {
    let transaction =
        ParsedEncodedConfirmedTransactionWithStatusMeta::from_encoded_transaction_with_status_meta(
            encoded("s", &["Key"], Some(meta(None, Some((&["W1"], &["R1", "R2"])))), vec![]),
            1,
            None,
        );
    let mut context = TransactionFilterContext::default();
    assert!(AccountFilter::Include(strings(&["R2"])).filter(&transaction, &mut context));
    assert!(AccountFilter::Include(strings(&["W1"])).filter(&transaction, &mut context));
    assert!(!AccountFilter::Include(strings(&["W2"])).filter(&transaction, &mut context));
}

#[test]
fn signature_filter_accepts_any_of_the_listed_signatures() {
    let filter = SignatureFilter::Include(strings(&["x", "s2"]));
    let mut context = TransactionFilterContext::default();
    assert!(filter.filter(&parsed("s2", &[], None), &mut context));
    assert!(!filter.filter(&parsed("s3", &[], None), &mut context));
    assert_eq!(filter.id(), FilterKind::Signature);
}

#[test]
fn signature_filter_refuses_what_is_not_json() {
    let binary = ParsedEncodedConfirmedTransactionWithStatusMeta::new(
        EncodedConfirmedTransactionWithStatusMeta {
            slot: 3,
            transaction: EncodedTransactionWithStatusMeta {
                transaction: EncodedTransaction::Binary("s2".to_string()),
                meta: None,
                instructions: Rc::new(ParsedInstructionList { instructions: vec![] }),
            },
            block_time: None,
        },
    );
    let mut context = TransactionFilterContext::default();
    assert!(!SignatureFilter::Include(strings(&["s2"])).filter(&binary, &mut context));
    assert!(!TransactionStatusFilter::success().filter(&binary, &mut context));
    assert!(!TransactionStatusFilter::fail().filter(&binary, &mut context));
}

#[test]
fn status_filter_goes_by_the_recorded_error() {
    let ok = parsed("s", &[], None);
    let failed = parsed("s", &[], Some("AccountInUse"));
    let mut context = TransactionFilterContext::default();
    assert!(TransactionStatusFilter::success().filter(&ok, &mut context));
    assert!(!TransactionStatusFilter::success().filter(&failed, &mut context));
    assert!(TransactionStatusFilter::fail().filter(&failed, &mut context));
    assert!(!TransactionStatusFilter::fail().filter(&ok, &mut context));
    assert_eq!(TransactionStatusFilter::fail().id(), FilterKind::Status);
}

#[test]
fn circle_swap_filter_wants_a_closed_chain_of_swaps() {
    let filter = CircleSwapFilter;
    let mut context = TransactionFilterContext::default();
    let triangle = with_instructions(
        "t",
        vec![
            swap("SOL", "USDC"),
            ParsedInstruction::Other { program_id: "Memo".to_string() },
            swap("USDC", "BONK"),
            swap("BONK", "SOL"),
        ],
    );
    assert!(filter.filter(&triangle, &mut context));
    let there_and_back = with_instructions("t", vec![swap("A", "B"), swap("B", "A")]);
    assert!(filter.filter(&there_and_back, &mut context));
    let open = with_instructions("t", vec![swap("A", "B"), swap("B", "C")]);
    assert!(!filter.filter(&open, &mut context));
    let broken = with_instructions("t", vec![swap("A", "B"), swap("C", "A")]);
    assert!(!filter.filter(&broken, &mut context));
    let single = with_instructions("t", vec![swap("A", "A")]);
    assert!(!filter.filter(&single, &mut context));
    let none = with_instructions("t", vec![]);
    assert!(!filter.filter(&none, &mut context));
    assert_eq!(context, TransactionFilterContext { evaluated: 6, rejected: 4 });
    assert_eq!(filter.id(), FilterKind::CircleSwap);
}

#[test]
fn registry_holds_one_filter_of_each_kind() {
    let mut registry = FilterRegistry::new();
    assert!(registry.is_empty());
    registry.insert(include_accounts(&["A"]));
    registry.insert(TransactionFilter::Status(TransactionStatusFilter::success()));
    registry.insert(include_accounts(&["B"]));
    assert_eq!(registry.len(), 2);
    assert_eq!(
        registry.as_slice().to_vec(),
        vec![
            include_accounts(&["B"]),
            TransactionFilter::Status(TransactionStatusFilter::success())
        ]
    );
    assert_eq!(registry.find(FilterKind::Status), Some(1));
    assert_eq!(registry.find(FilterKind::CircleSwap), None);
    assert_eq!(registry.get(FilterKind::Account), Some(&include_accounts(&["B"])));
    registry.remove(FilterKind::CircleSwap);
    assert_eq!(registry.len(), 2);
    registry.remove(FilterKind::Account);
    assert_eq!(
        registry.as_slice().to_vec(),
        vec![TransactionFilter::Status(TransactionStatusFilter::success())]
    );
    assert_eq!(registry.get(FilterKind::Account), None);
}

#[test]
fn accounts_are_listed_keys_first_then_loaded_addresses() {
    let transaction =
        ParsedEncodedConfirmedTransactionWithStatusMeta::from_encoded_transaction_with_status_meta(
            encoded("s", &["K1", "K2"], Some(meta(None, Some((&["W1"], &["R1"])))), vec![]),
            1,
            None,
        );
    let accounts = transaction.get_accounts();
    assert_eq!(accounts.account_keys, Some(&strings(&["K1", "K2"])));
    assert_eq!(accounts.writable, Some(&strings(&["W1"])));
    assert_eq!(accounts.readonly, Some(&strings(&["R1"])));
    assert!(accounts.contains(&"R1".to_string()));
    assert!(!accounts.contains(&"R2".to_string()));
    assert!(accounts.contains_any(&strings(&["zz", "K2"])));
    assert!(!accounts.contains_any(&strings(&[])));
    let none = TransactionAccounts::from_accounts(None, None, None);
    assert!(!none.contains(&"K1".to_string()));
}

#[test]
fn a_parsed_message_lists_no_account_keys() {
    let transaction = ParsedEncodedConfirmedTransactionWithStatusMeta::new(
        EncodedConfirmedTransactionWithStatusMeta {
            slot: 3,
            transaction: EncodedTransactionWithStatusMeta {
                transaction: EncodedTransaction::Json(UiTransaction {
                    signatures: strings(&["sig"]),
                    message: UiMessage::Parsed,
                }),
                meta: None,
                instructions: Rc::new(ParsedInstructionList { instructions: vec![] }),
            },
            block_time: Some(9),
        },
    );
    let accounts = transaction.get_accounts();
    assert_eq!(accounts.account_keys, None);
    assert_eq!(accounts.writable, None);
    assert_eq!(accounts.readonly, None);
    assert_eq!(transaction.get_signatures(), Some(&strings(&["sig"])));
    assert!(transaction.get_meta().is_none());
    assert!(transaction.has_signature(&"sig".to_string()));
    assert_eq!(transaction.get_parsed_instructions().map(|i| i.len()), Some(0));
}

#[test]
fn the_execution_record_is_handed_out_field_by_field() {
    let transaction = parsed("s", &["A"], Some("Boom"));
    let meta = transaction.get_meta().unwrap();
    assert_eq!(meta.err, Some(&"Boom".to_string()));
    assert!(!meta.status);
    assert_eq!(meta.fee, 5000);
    assert_eq!(meta.pre_balances, &vec![10, 20]);
    assert_eq!(meta.post_balances, &vec![5, 25]);
    assert_eq!(meta.log_messages, Some(&strings(&["log"])));
    assert_eq!(meta.compute_units_consumed, Some(150));
    assert!(parsed("s", &["A"], None).get_meta().unwrap().status);
}

#[test]
fn a_duplicate_is_equal_to_what_it_was_made_from() {
    let transaction = parsed("s", &["A"], None);
    let copy = transaction.duplicate();
    assert_eq!(copy, transaction);
    assert!(Rc::ptr_eq(&copy.transaction, &transaction.transaction));
    let g = group(5, vec![transaction]);
    assert_eq!(g.duplicate(), g);
}

#[test]
fn a_block_becomes_a_group_and_the_wanted_transaction_is_found() {
    let block = BlockTransaction {
        slot: 77,
        block_time: Some(123),
        block_height: Some(70),
        transactions: Some(vec![
            encoded("first", &["A"], None, vec![]),
            encoded("wanted", &["B"], None, vec![swap("X", "Y")]),
            encoded("last", &["C"], None, vec![]),
        ]),
    };
    let (cheap, found) = CheapBlockTransaction::from_block_transaction(block, &"wanted".to_string());
    assert_eq!(cheap.slot, 77);
    assert_eq!(cheap.block_time, Some(123));
    assert_eq!(cheap.block_height, Some(70));
    assert_eq!(cheap.transactions.len(), 3);
    assert_eq!(signatures_of(&[cheap.clone()]), vec![strings(&["first", "wanted", "last"])]);
    let found = found.unwrap();
    assert_eq!(found, cheap.transactions[1]);
    assert_eq!(found.transaction.slot, 77);
    assert_eq!(found.transaction.block_time, Some(123));
    assert_eq!(found.parsed_instructions.instructions, vec![swap("X", "Y")]);
}

#[test]
fn the_last_transaction_with_the_signature_wins() {
    let block = BlockTransaction {
        slot: 1,
        block_time: None,
        block_height: None,
        transactions: Some(vec![
            encoded("dup", &["A"], None, vec![]),
            encoded("other", &["B"], None, vec![]),
            encoded("dup", &["C"], None, vec![]),
        ]),
    };
    let (cheap, found) = CheapBlockTransaction::from_block_transaction(block, &"dup".to_string());
    assert_eq!(found.unwrap(), cheap.transactions[2]);
}

#[test]
fn a_block_without_transactions_becomes_an_empty_group() {
    let block =
        BlockTransaction { slot: 9, block_time: Some(1), block_height: None, transactions: None };
    let (cheap, found) = CheapBlockTransaction::from_block_transaction(block, &"x".to_string());
    assert_eq!(cheap.slot, 9);
    assert_eq!(cheap.block_time, Some(1));
    assert_eq!(cheap.block_height, None);
    assert!(cheap.transactions.is_empty());
    assert!(found.is_none());
}

#[test]
fn a_binary_transaction_is_never_the_wanted_one() {
    let block = BlockTransaction {
        slot: 9,
        block_time: None,
        block_height: None,
        transactions: Some(vec![EncodedTransactionWithStatusMeta {
            transaction: EncodedTransaction::Binary("wanted".to_string()),
            meta: None,
            instructions: Rc::new(ParsedInstructionList { instructions: vec![] }),
        }]),
    };
    let (cheap, found) = CheapBlockTransaction::from_block_transaction(block, &"wanted".to_string());
    assert_eq!(cheap.transactions.len(), 1);
    assert!(found.is_none());
}
