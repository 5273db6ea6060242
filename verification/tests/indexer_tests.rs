use uniswapx_indexer::address::Address;
use uniswapx_indexer::amount::Decimal;
use uniswapx_indexer::amount::Uint256;
use uniswapx_indexer::decode::decode_payload;
use uniswapx_indexer::enrich::EnrichmentError;
use uniswapx_indexer::enrich::ResolvedData;
use uniswapx_indexer::enrich::enrich;
use uniswapx_indexer::enrich::plan_enrichment;
use uniswapx_indexer::feed::FeedOrder;
use uniswapx_indexer::feed::InputLeg;
use uniswapx_indexer::feed::OrderStatus;
use uniswapx_indexer::feed::OrderType;
use uniswapx_indexer::feed::OutputLeg;
use uniswapx_indexer::feed::SettledAmount;
use uniswapx_indexer::hexstr::hex_bytes_of_str;
use uniswapx_indexer::hexstr::hex_string_of;
use uniswapx_indexer::indexer::Ingestion;
use uniswapx_indexer::indexer::LoopAction;
use uniswapx_indexer::indexer::LoopEvent;
use uniswapx_indexer::indexer::RunEvent;
use uniswapx_indexer::indexer::StreamEvent;
use uniswapx_indexer::indexer::run_to_flush;
use uniswapx_indexer::token::IndexerConfig;
use uniswapx_indexer::token::Token;
use uniswapx_indexer::token::TokenQuery;

fn addr(b: u8) -> Address {
    Address::new([b; 20])
}

fn zero_addr() -> Address {
    Address::new([0; 20])
}

fn u256(lo: u128) -> Uint256 {
    Uint256::new(0, lo)
}

fn config() -> IndexerConfig {
    IndexerConfig {
        fee_recipient: addr(0xfe),
        native_token: Token::new(zero_addr(), String::from("ETH"), 18),
        native_coin: addr(0xcc),
    }
}

fn order_with(input_token: Address, outputs: Vec<OutputLeg>) -> FeedOrder {
    FeedOrder {
        order_hash: String::from("0xabc123"),
        chain_id: 137,
        created_at: 1_690_000_000,
        order_type: OrderType::Dutch,
        order_status: OrderStatus::Filled,
        input: InputLeg { token: input_token, start_amount: u256(1_500_000), end_amount: u256(1_400_000) },
        outputs,
        settled_amounts: None,
        signature: String::from("0xsig"),
        tx_hash: None,
        encoded_order: String::from("0x"),
    }
}

fn out_leg(token: Address, start: u128, end: u128, recipient: Address) -> OutputLeg {
    OutputLeg { token, start_amount: u256(start), end_amount: u256(end), recipient }
}

fn full_answers() -> ResolvedData {
    ResolvedData {
        input_token: Some(Token::new(addr(0x01), String::from("USDC"), 6)),
        output_token: Some(Token::new(addr(0x02), String::from("WETH"), 18)),
        input_price: Some(Decimal::new(1, 0)),
        output_price: Some(Decimal::new(25, 1)),
    }
}

#[test]
fn resolved_symbols_and_scaled_amounts() {
    let cfg = config();
    let order = order_with(
        addr(0x01),
        vec![out_leg(addr(0x02), 2_000_000_000_000_000_000, 1_000_000_000_000_000_000, addr(0x99))],
    );
    let rec = enrich(&order, &cfg, &full_answers()).expect("enrichment should succeed");
    assert_eq!(rec.input.symbol, "USDC");
    assert_eq!(rec.output.symbol, "WETH");
    assert_eq!(rec.input.start_amount, Decimal::new(1_500_000, 6));
    assert_eq!(rec.input.end_amount, Decimal::new(1_400_000, 6));
    assert_eq!(rec.output.start_amount, Decimal::new(2_000_000_000_000_000_000, 18));
    assert_eq!(rec.output.end_amount, Decimal::new(1_000_000_000_000_000_000, 18));
    assert_eq!(rec.input.price, Decimal::new(1, 0));
    assert_eq!(rec.output.price, Decimal::new(25, 1));
    assert_eq!(rec.hash, "0xabc123");
    assert_eq!(rec.signature, "0xsig");
    assert_eq!(rec.recipient, format!("0x{}", "99".repeat(20)));
    assert!(rec.fee.is_none());
    assert!(rec.details.is_none());
}

#[test]
fn settlement_amounts_are_carried_and_scaled() {
    let cfg = config();
    let mut order = order_with(addr(0x01), vec![out_leg(addr(0x02), 5, 4, addr(0x99))]);
    order.settled_amounts = Some(vec![SettledAmount {
        amount_in: Some(u256(1_200_000)),
        amount_out: u256(3),
    }]);
    let rec = enrich(&order, &cfg, &full_answers()).expect("enrichment should succeed");
    assert_eq!(rec.input.settled_amount, Some(Decimal::new(1_200_000, 6)));
    assert_eq!(rec.output.settled_amount, Some(Decimal::new(3, 18)));
}

#[test]
fn zero_address_input_uses_native_without_resolver() {
    let cfg = config();
    let order = order_with(zero_addr(), vec![out_leg(addr(0x02), 2, 1, addr(0x99))]);
    let plan = plan_enrichment(&order, &cfg);
    assert_eq!(plan.input_query, TokenQuery::Native);
    // No resolver answer for the input leg at all: still enriched.
    let mut answers = full_answers();
    answers.input_token = None;
    let rec = enrich(&order, &cfg, &answers).expect("native input needs no resolver");
    assert_eq!(rec.input.symbol, "ETH");
    assert_eq!(rec.input.start_amount, Decimal::new(1_500_000, 18));
}

#[test]
fn zero_address_output_uses_native_without_resolver() {
    let cfg = config();
    let order = order_with(addr(0x01), vec![out_leg(zero_addr(), 2, 1, addr(0x99))]);
    let plan = plan_enrichment(&order, &cfg);
    assert_eq!(plan.output_query, Some(TokenQuery::Native));
    let mut answers = full_answers();
    answers.output_token = None;
    let rec = enrich(&order, &cfg, &answers).expect("native output needs no resolver");
    assert_eq!(rec.output.symbol, "ETH");
}

#[test]
fn lookup_queries_name_the_leg_tokens() {
    let cfg = config();
    let order = order_with(addr(0x01), vec![out_leg(addr(0x02), 2, 1, addr(0x99))]);
    let plan = plan_enrichment(&order, &cfg);
    assert_eq!(plan.input_query, TokenQuery::Lookup(addr(0x01)));
    assert_eq!(plan.output_query, Some(TokenQuery::Lookup(addr(0x02))));
    assert_eq!(plan.output_leg, Some(0));
    assert_eq!(plan.fee_leg, None);
}

#[test]
fn no_output_leg_fails() {
    let cfg = config();
    // Every output pays the fee recipient.
    let order = order_with(
        addr(0x01),
        vec![out_leg(addr(0x02), 2, 1, addr(0xfe)), out_leg(addr(0x02), 4, 3, addr(0xfe))],
    );
    assert_eq!(enrich(&order, &cfg, &full_answers()), Err(EnrichmentError::NoOutputLeg));
}

#[test]
fn fee_leg_becomes_the_fee_asset() {
    let cfg = config();
    let order = order_with(
        addr(0x01),
        vec![
            out_leg(addr(0x02), 30, 40, addr(0xfe)),
            out_leg(addr(0x02), 2_000, 1_000, addr(0x99)),
        ],
    );
    let rec = enrich(&order, &cfg, &full_answers()).expect("enrichment should succeed");
    // The non-fee leg is the output even though the fee leg arrived first.
    assert_eq!(rec.output.start_amount, Decimal::new(2_000, 18));
    assert_eq!(rec.recipient, format!("0x{}", "99".repeat(20)));
    let fee = rec.fee.expect("the fee leg should be present");
    assert_eq!(fee.start_amount, Decimal::new(30, 18));
    assert_eq!(fee.end_amount, Decimal::new(40, 18));
    assert_eq!(fee.settled_amount, None);
    assert_eq!(fee.symbol, "WETH");
    assert_eq!(fee.price, Decimal::new(25, 1));
}

#[test]
fn no_fee_leg_means_no_fee_asset() {
    let cfg = config();
    let order = order_with(addr(0x01), vec![out_leg(addr(0x02), 2, 1, addr(0x99))]);
    let rec = enrich(&order, &cfg, &full_answers()).expect("enrichment should succeed");
    assert!(rec.fee.is_none());
}

#[test]
fn enrichment_is_idempotent() {
    let cfg = config();
    let order = order_with(
        addr(0x01),
        vec![out_leg(addr(0x02), 30, 40, addr(0xfe)), out_leg(addr(0x02), 2, 1, addr(0x99))],
    );
    let first = enrich(&order, &cfg, &full_answers());
    let second = enrich(&order, &cfg, &full_answers());
    assert_eq!(first, second);
    assert!(first.is_ok());
}

#[test]
fn resolver_failure_drops_the_order() {
    let cfg = config();
    let order = order_with(addr(0x01), vec![out_leg(addr(0x02), 2, 1, addr(0x99))]);
    let mut answers = full_answers();
    answers.input_token = None;
    assert_eq!(enrich(&order, &cfg, &answers), Err(EnrichmentError::TokenResolutionFailed));
}

#[test]
fn missing_price_drops_the_order() {
    let cfg = config();
    let order = order_with(addr(0x01), vec![out_leg(addr(0x02), 2, 1, addr(0x99))]);
    let mut answers = full_answers();
    answers.output_price = None;
    assert_eq!(enrich(&order, &cfg, &answers), Err(EnrichmentError::PriceUnavailable));
    let mut answers = full_answers();
    answers.input_price = None;
    assert_eq!(enrich(&order, &cfg, &answers), Err(EnrichmentError::PriceUnavailable));
}

#[test]
fn oversized_amount_fails_conversion() {
    let cfg = config();
    let mut order = order_with(addr(0x01), vec![out_leg(addr(0x02), 2, 1, addr(0x99))]);
    // An amount of 2^128 base units cannot be held after scaling.
    order.input.start_amount = Uint256::new(1, 0);
    assert_eq!(enrich(&order, &cfg, &full_answers()), Err(EnrichmentError::AmountConversionFailed));
}

#[test]
fn scenario_native_input_priced_output() {
    // Input token is the zero address; the output token resolves with 18
    // decimals; the raw output amount is 10^18 at price 2.5: the enriched
    // output is exactly 1.0 at 2.5.
    let cfg = config();
    let mut order = order_with(zero_addr(), vec![out_leg(addr(0xaa), 1_000_000_000_000_000_000, 1_000_000_000_000_000_000, addr(0x99))]);
    order.input.start_amount = u256(10);
    order.input.end_amount = u256(10);
    let answers = ResolvedData {
        input_token: None,
        output_token: Some(Token::new(addr(0xaa), String::from("TOK"), 18)),
        input_price: Some(Decimal::new(1, 0)),
        output_price: Some(Decimal::new(25, 1)),
    };
    let rec = enrich(&order, &cfg, &answers).expect("enrichment should succeed");
    // 10^18 / 10^18 == 1.0, held as the pair (10^18, 18).
    assert_eq!(rec.output.end_amount, Decimal::new(1_000_000_000_000_000_000, 18));
    assert_eq!(rec.output.price, Decimal::new(25, 1));
}

#[test]
fn transport_error_then_valid_order_accumulates_one() {
    let cfg = config();
    let order = order_with(addr(0x01), vec![out_leg(addr(0x02), 2, 1, addr(0x99))]);
    let events = vec![
        RunEvent::TransportError,
        RunEvent::Order(order, full_answers()),
        RunEvent::Cancelled,
    ];
    let flushed = run_to_flush(events, &cfg, false).expect("cancellation must flush");
    assert_eq!(flushed.len(), 1);
    assert_eq!(flushed[0].hash, "0xabc123");
}

#[test]
fn cancellation_with_nothing_accumulated_still_flushes() {
    let cfg = config();
    let events = vec![RunEvent::Cancelled];
    let flushed = run_to_flush(events, &cfg, false).expect("cancellation must flush");
    assert!(flushed.is_empty());
}

#[test]
fn flush_holds_exactly_the_enriched_prefix() {
    let cfg = config();
    let mut ok1 = order_with(addr(0x01), vec![out_leg(addr(0x02), 2, 1, addr(0x99))]);
    ok1.order_hash = String::from("0x01");
    let mut dropped = order_with(addr(0x01), vec![out_leg(addr(0x02), 2, 1, addr(0x99))]);
    dropped.order_hash = String::from("0x02");
    let mut failing_answers = full_answers();
    failing_answers.output_price = None;
    let mut ok2 = order_with(addr(0x01), vec![out_leg(addr(0x02), 2, 1, addr(0x99))]);
    ok2.order_hash = String::from("0x03");
    let mut after_cancel = order_with(addr(0x01), vec![out_leg(addr(0x02), 2, 1, addr(0x99))]);
    after_cancel.order_hash = String::from("0x04");
    let events = vec![
        RunEvent::Order(ok1, full_answers()),
        RunEvent::Order(dropped, failing_answers),
        RunEvent::Order(ok2, full_answers()),
        RunEvent::Cancelled,
        RunEvent::Order(after_cancel, full_answers()),
    ];
    let flushed = run_to_flush(events, &cfg, false).expect("cancellation must flush");
    let hashes: Vec<&str> = flushed.iter().map(|o| o.hash.as_str()).collect();
    assert_eq!(hashes, vec!["0x01", "0x03"]);
}

#[test]
fn strict_mode_halts_on_backwards_timestamp() {
    let cfg = config();
    let mut first = order_with(addr(0x01), vec![out_leg(addr(0x02), 2, 1, addr(0x99))]);
    first.created_at = 100;
    let mut second = order_with(addr(0x01), vec![out_leg(addr(0x02), 2, 1, addr(0x99))]);
    second.created_at = 50;
    let events = vec![
        RunEvent::Order(first, full_answers()),
        RunEvent::Order(second, full_answers()),
        RunEvent::Cancelled,
    ];
    assert!(run_to_flush(events, &cfg, true).is_none());
}

#[test]
fn lax_mode_keeps_backwards_timestamp() {
    let cfg = config();
    let mut first = order_with(addr(0x01), vec![out_leg(addr(0x02), 2, 1, addr(0x99))]);
    first.created_at = 100;
    let mut second = order_with(addr(0x01), vec![out_leg(addr(0x02), 2, 1, addr(0x99))]);
    second.created_at = 50;
    let events = vec![
        RunEvent::Order(first, full_answers()),
        RunEvent::Order(second, full_answers()),
        RunEvent::Cancelled,
    ];
    let flushed = run_to_flush(events, &cfg, false).expect("cancellation must flush");
    assert_eq!(flushed.len(), 2);
}

#[test]
fn ingestion_transitions() {
    let mut ing = Ingestion::new(false);
    let a = ing.on_event(LoopEvent::Stream(StreamEvent::TransportError));
    assert!(matches!(a, LoopAction::Skip));
    let a = ing.on_event(LoopEvent::Cancelled);
    assert!(matches!(a, LoopAction::Flush));
    let flushed = ing.flush();
    assert!(flushed.is_empty());
}

fn word_u64(n: u64) -> [u8; 32] {
    let mut w = [0u8; 32];
    w[24..].copy_from_slice(&n.to_be_bytes());
    w
}

fn word_addr(b: u8) -> [u8; 32] {
    let mut w = [0u8; 32];
    for slot in w.iter_mut().skip(12) {
        *slot = b;
    }
    w
}

fn sample_payload() -> String {
    let mut v: Vec<u8> = Vec::new();
    v.extend_from_slice(&word_u64(32)); // offset of the order tuple
    v.extend_from_slice(&word_u64(288)); // offset of the info block
    v.extend_from_slice(&word_u64(1000)); // decay start
    v.extend_from_slice(&word_u64(2000)); // decay end
    v.extend_from_slice(&word_addr(0x11)); // exclusive filler
    v.extend_from_slice(&word_u64(100)); // exclusivity override bps
    v.extend_from_slice(&word_addr(0x22)); // input token
    v.extend_from_slice(&word_u64(5)); // input start amount
    v.extend_from_slice(&word_u64(6)); // input end amount
    v.extend_from_slice(&word_u64(544)); // offset of the output array
    v.extend_from_slice(&word_addr(0x55)); // reactor
    v.extend_from_slice(&word_addr(0x66)); // swapper
    let mut nonce = [0u8; 32];
    nonce[15] = 1; // nonce = 2^128
    v.extend_from_slice(&nonce);
    v.extend_from_slice(&word_u64(3000)); // deadline
    v.extend_from_slice(&word_addr(0x77)); // additional validation contract
    v.extend_from_slice(&word_u64(192)); // offset of the validation bytes
    v.extend_from_slice(&word_u64(3)); // validation bytes length
    let mut data = [0u8; 32];
    data[0] = 0xde;
    data[1] = 0xad;
    data[2] = 0xbe;
    v.extend_from_slice(&data);
    v.extend_from_slice(&word_u64(1)); // one output leg
    v.extend_from_slice(&word_addr(0x33)); // output token
    v.extend_from_slice(&word_u64(7)); // output start amount
    v.extend_from_slice(&word_u64(8)); // output end amount
    v.extend_from_slice(&word_addr(0x44)); // output recipient
    let mut s = String::from("0x");
    for b in v {
        s.push_str(&format!("{:02x}", b));
    }
    s
}

#[test]
fn decode_reads_every_field() {
    let payload = sample_payload();
    let details = decode_payload(&payload).expect("the payload is well-formed");
    assert_eq!(details.decay_start_time, 1000);
    assert_eq!(details.decay_end_time, 2000);
    assert_eq!(details.exclusive_filler, format!("0x{}", "11".repeat(20)));
    assert_eq!(details.exclusivity_override_bps, 100);
    assert_eq!(details.reactor, format!("0x{}", "55".repeat(20)));
    assert_eq!(details.swapper, format!("0x{}", "66".repeat(20)));
    assert_eq!(details.nonce, "340282366920938463463374607431768211456");
    assert_eq!(details.deadline, 3000);
    assert_eq!(details.additional_validation_contract, format!("0x{}", "77".repeat(20)));
    assert_eq!(details.additional_validation_data, "0xdeadbe");
}

#[test]
fn decode_failure_is_absent_details_not_an_error() {
    let cfg = config();
    let mut order = order_with(addr(0x01), vec![out_leg(addr(0x02), 2, 1, addr(0x99))]);
    order.encoded_order = String::from("0xnothex");
    let rec = enrich(&order, &cfg, &full_answers()).expect("decode failure must not drop the order");
    assert!(rec.details.is_none());
}

#[test]
fn enrich_inlines_decoded_details() {
    let cfg = config();
    let mut order = order_with(addr(0x01), vec![out_leg(addr(0x02), 2, 1, addr(0x99))]);
    order.encoded_order = sample_payload();
    let rec = enrich(&order, &cfg, &full_answers()).expect("enrichment should succeed");
    let details = rec.details.expect("the payload decodes");
    assert_eq!(details.deadline, 3000);
    assert_eq!(details.nonce, "340282366920938463463374607431768211456");
}

#[test]
fn decode_rejects_malformed_payloads() {
    assert!(decode_payload("0x").is_none());
    assert!(decode_payload("zz").is_none());
    assert!(decode_payload("0xdead").is_none());
    // An offset word pointing past the end.
    let huge = format!("0x{}{}", "ff".repeat(32), "00".repeat(32));
    assert!(decode_payload(&huge).is_none());
}

#[test]
fn uint256_renders_decimal_text() {
    assert_eq!(Uint256::new(0, 0).to_dec_string(), "0");
    assert_eq!(Uint256::new(0, 12345).to_dec_string(), "12345");
    assert_eq!(
        Uint256::new(1, 0).to_dec_string(),
        "340282366920938463463374607431768211456"
    );
    assert_eq!(
        Uint256::new(0, u128::MAX).to_dec_string(),
        "340282366920938463463374607431768211455"
    );
}

#[test]
fn hex_text_helpers_roundtrip() {
    assert_eq!(hex_string_of(&[0xde, 0xad, 0x00, 0x0f]), "dead000f");
    let bytes = hex_bytes_of_str("dead000f").expect("even hex digits decode");
    assert_eq!(bytes, vec![0xde, 0xad, 0x00, 0x0f]);
    assert_eq!(hex_bytes_of_str("DEAD000F"), Some(vec![0xde, 0xad, 0x00, 0x0f]));
    assert!(hex_bytes_of_str("abc").is_none());
    assert!(hex_bytes_of_str("zz").is_none());
    assert_eq!(addr(0x0a).to_hex(), format!("0x{}", "0a".repeat(20)));
    assert!(zero_addr().is_zero());
    assert!(!addr(1).is_zero());
}
