use vstd::prelude::*;
use crate::address::Address;
use crate::address::is_zero_bytes;
use crate::amount::Decimal;
use crate::amount::Uint256;
use crate::amount::scaled_spec;
use crate::decode::decode_payload;
use crate::decode::decode_payload_spec;
use crate::hexstr::hex_0x_of;
use crate::feed::FeedOrder;
use crate::feed::FeedOrderView;
use crate::feed::OutputLeg;
use crate::feed::OutputLegView;
use crate::feed::SettledAmount;
use crate::order::Order;
use crate::order::OrderView;
use crate::order_asset::OrderAsset;
use crate::order_asset::amounts_representable;
use crate::order_asset::asset_spec;
use crate::token::ConfigView;
use crate::token::IndexerConfig;
use crate::token::Token;
use crate::token::TokenQuery;
use crate::token::TokenQueryView;
use crate::token::TokenView;
use crate::token::token_query_of;
use crate::token::token_query_spec;

verus! {

/// Why one order's enrichment failed. Each failure drops that order alone.
#[derive(Clone, Copy, Debug, PartialEq, Eq, Structural)]
pub enum EnrichmentError {
    /// The token resolver had no descriptor for a looked-up leg token.
    TokenResolutionFailed,
    /// Every output leg pays the fee recipient, so no output can be taken.
    NoOutputLeg,
    /// The price oracle had no price for a leg's coin.
    PriceUnavailable,
    /// A raw amount was too large to hold after scaling.
    AmountConversionFailed,
}

/// What the collaborators answered for one order: resolved tokens for the
/// two looked-up legs, and the two prices. An absent token means the
/// resolver failed; an absent price means the oracle had none.
#[derive(Clone, Debug)]
pub struct ResolvedData {
    pub input_token: Option<Token>,
    pub output_token: Option<Token>,
    pub input_price: Option<Decimal>,
    pub output_price: Option<Decimal>,
}

pub struct ResolvedView {
    pub input_token: Option<TokenView>,
    pub output_token: Option<TokenView>,
    pub input_price: Option<Decimal>,
    pub output_price: Option<Decimal>,
}

impl View for ResolvedData {
    type V = ResolvedView;

    open spec fn view(&self) -> ResolvedView {
        ResolvedView {
            input_token: match &self.input_token {
                Some(t) => Some(t@),
                None => None,
            },
            output_token: match &self.output_token {
                Some(t) => Some(t@),
                None => None,
            },
            input_price: self.input_price,
            output_price: self.output_price,
        }
    }
}

/// Whether one output leg pays the protocol fee recipient.
pub open spec fn is_fee_leg(leg: OutputLegView, fee: Seq<u8>) -> bool {
    leg.recipient == fee
}

/// The first output leg that is (`want_fee`) or is not (`!want_fee`) a fee
/// leg, by arrival order.
pub open spec fn first_leg_index(outputs: Seq<OutputLegView>, fee: Seq<u8>, want_fee: bool) -> Option<int>
    decreases outputs.len(),
{
    if outputs.len() == 0 {
        None
    } else if is_fee_leg(outputs[0], fee) == want_fee {
        Some(0)
    } else {
        match first_leg_index(outputs.skip(1), fee, want_fee) {
            Some(i) => Some(i + 1),
            None => None,
        }
    }
}

/// The views of a run of output legs.
pub open spec fn legs_view(s: Seq<OutputLeg>) -> Seq<OutputLegView> {
    s.map_values(|o: OutputLeg| o@)
}

proof fn lemma_first_leg_found(outputs: Seq<OutputLegView>, fee: Seq<u8>, want_fee: bool, i: int)
    requires
        0 <= i < outputs.len(),
        is_fee_leg(outputs[i], fee) == want_fee,
        forall|j: int| 0 <= j < i ==> is_fee_leg(#[trigger] outputs[j], fee) != want_fee,
    ensures
        first_leg_index(outputs, fee, want_fee) == Some(i),
    decreases i,
{
    if i > 0 {
        lemma_first_leg_found(outputs.skip(1), fee, want_fee, i - 1);
        assert(outputs.skip(1)[i - 1] == outputs[i]);
        assert(forall|j: int| 0 <= j < i - 1 ==> is_fee_leg(#[trigger] outputs.skip(1)[j], fee)
            != want_fee) by {
            assert(forall|j: int| 0 <= j < i - 1 ==> outputs.skip(1)[j] == outputs[j + 1]);
        };
    }
}

proof fn lemma_first_leg_absent(outputs: Seq<OutputLegView>, fee: Seq<u8>, want_fee: bool)
    requires
        forall|j: int| 0 <= j < outputs.len() ==> is_fee_leg(#[trigger] outputs[j], fee) != want_fee,
    ensures
        first_leg_index(outputs, fee, want_fee) is None,
    decreases outputs.len(),
{
    if outputs.len() > 0 {
        lemma_first_leg_absent(outputs.skip(1), fee, want_fee);
    }
}

/// Finds the first leg that pays (or does not pay) the fee recipient.
fn find_leg(outputs: &Vec<OutputLeg>, fee: &Address, want_fee: bool) -> (r: Option<usize>)
    ensures
        match r {
            Some(i) => first_leg_index(legs_view(outputs@), fee@, want_fee) == Some(i as int)
                && i < outputs@.len(),
            None => first_leg_index(legs_view(outputs@), fee@, want_fee) is None,
        },
{
    let n = outputs.len();
    let mut i: usize = 0;
    while i < n
        invariant
            i <= n,
            n == outputs@.len(),
            forall|j: int| 0 <= j < i ==> is_fee_leg(#[trigger] legs_view(outputs@)[j], fee@)
                != want_fee,
        decreases n - i,
    {
        if outputs[i].recipient.same(fee) == want_fee {
            proof {
                lemma_first_leg_found(legs_view(outputs@), fee@, want_fee, i as int);
            }
            return Some(i);
        }
        i += 1;
    }
    proof {
        lemma_first_leg_absent(legs_view(outputs@), fee@, want_fee);
    }
    None
}

/// The token identity a query yields: the configured native token for a
/// zero-address leg, otherwise whatever the resolver answered.
pub open spec fn resolved_token_spec(
    query: TokenQueryView,
    answered: Option<TokenView>,
    cfg: ConfigView,
) -> Option<TokenView> {
    match query {
        TokenQueryView::Native => Some(cfg.native_token),
        TokenQueryView::Lookup(_) => answered,
    }
}

/// The first settlement entry, when the feed carries one.
pub open spec fn first_settled(s: Option<Seq<SettledAmount>>) -> Option<SettledAmount> {
    match s {
        Some(v) => if v.len() > 0 {
            Some(v[0])
        } else {
            None
        },
        None => None,
    }
}

pub open spec fn settled_in(s: Option<SettledAmount>) -> Option<Uint256> {
    match s {
        Some(x) => x.amount_in,
        None => None,
    }
}

pub open spec fn settled_out(s: Option<SettledAmount>) -> Option<Uint256> {
    match s {
        Some(x) => Some(x.amount_out),
        None => None,
    }
}

/// The whole enrichment of one feed order, step by step: input token
/// identity, leg partition, output token identity, the two prices, the
/// settlement extract, the scaled assets, and assembly. Decode failure never
/// fails the order; every other step does, in this order.
pub open spec fn enrich_spec(
    o: FeedOrderView,
    cfg: ConfigView,
    res: ResolvedView,
) -> Result<OrderView, EnrichmentError> {
    match resolved_token_spec(token_query_spec(o.input.token), res.input_token, cfg) {
        None => Err(EnrichmentError::TokenResolutionFailed),
        Some(in_tok) => match first_leg_index(o.outputs, cfg.fee_recipient, false) {
            None => Err(EnrichmentError::NoOutputLeg),
            Some(oi) => {
                let out_leg = o.outputs[oi];
                match resolved_token_spec(token_query_spec(out_leg.token), res.output_token, cfg) {
                    None => Err(EnrichmentError::TokenResolutionFailed),
                    Some(out_tok) => match (res.output_price, res.input_price) {
                        (None, _) => Err(EnrichmentError::PriceUnavailable),
                        (Some(_), None) => Err(EnrichmentError::PriceUnavailable),
                        (Some(out_price), Some(in_price)) => {
                            let settled = first_settled(o.settled_amounts);
                            let fee_i = first_leg_index(o.outputs, cfg.fee_recipient, true);
                            if !amounts_representable(
                                o.input.start_amount,
                                o.input.end_amount,
                                settled_in(settled),
                            ) {
                                Err(EnrichmentError::AmountConversionFailed)
                            } else if !amounts_representable(
                                out_leg.start_amount,
                                out_leg.end_amount,
                                settled_out(settled),
                            ) {
                                Err(EnrichmentError::AmountConversionFailed)
                            } else if (match fee_i {
                                Some(fi) => !amounts_representable(
                                    o.outputs[fi].start_amount,
                                    o.outputs[fi].end_amount,
                                    None,
                                ),
                                None => false,
                            }) {
                                Err(EnrichmentError::AmountConversionFailed)
                            } else {
                                Ok(
                                    OrderView {
                                        hash: o.order_hash,
                                        chain_id: o.chain_id,
                                        created_at: o.created_at,
                                        ty: o.order_type,
                                        status: o.order_status,
                                        input: asset_spec(
                                            in_tok,
                                            o.input.start_amount,
                                            o.input.end_amount,
                                            settled_in(settled),
                                            in_price,
                                        ),
                                        output: asset_spec(
                                            out_tok,
                                            out_leg.start_amount,
                                            out_leg.end_amount,
                                            settled_out(settled),
                                            out_price,
                                        ),
                                        fee: match fee_i {
                                            Some(fi) => Some(
                                                asset_spec(
                                                    out_tok,
                                                    o.outputs[fi].start_amount,
                                                    o.outputs[fi].end_amount,
                                                    None,
                                                    out_price,
                                                ),
                                            ),
                                            None => None,
                                        },
                                        recipient: hex_0x_of(out_leg.recipient),
                                        signature: o.signature,
                                        tx: o.tx_hash,
                                        details: decode_payload_spec(o.encoded_order),
                                    },
                                )
                            }
                        },
                    },
                }
            },
        },
    }
}

/// Enriches one feed order from the collaborators' answers. The result —
/// record or error — is exactly `enrich_spec` of the inputs, so the same
/// order with the same answers always yields the same record.
pub fn enrich(order: &FeedOrder, cfg: &IndexerConfig, resolved: &ResolvedData) -> (r: Result<
    Order,
    EnrichmentError,
>)
    ensures
        match r {
            Ok(rec) => enrich_spec(order@, cfg@, resolved@) == Ok::<OrderView, EnrichmentError>(
                rec@,
            ),
            Err(e) => enrich_spec(order@, cfg@, resolved@) == Err::<OrderView, EnrichmentError>(e),
        },
{
    let in_query = token_query_of(&order.input.token);
    let in_tok: &Token = match in_query {
        TokenQuery::Native => &cfg.native_token,
        TokenQuery::Lookup(_) => match &resolved.input_token {
            Some(t) => t,
            None => {
                return Err(EnrichmentError::TokenResolutionFailed);
            },
        },
    };
    let oi = match find_leg(&order.outputs, &cfg.fee_recipient, false) {
        Some(i) => i,
        None => {
            return Err(EnrichmentError::NoOutputLeg);
        },
    };
    let out_leg: OutputLeg = order.outputs[oi];
    let out_query = token_query_of(&out_leg.token);
    let out_tok: &Token = match out_query {
        TokenQuery::Native => &cfg.native_token,
        TokenQuery::Lookup(_) => match &resolved.output_token {
            Some(t) => t,
            None => {
                return Err(EnrichmentError::TokenResolutionFailed);
            },
        },
    };
    let out_price: Decimal = match resolved.output_price {
        Some(p) => p,
        None => {
            return Err(EnrichmentError::PriceUnavailable);
        },
    };
    let in_price: Decimal = match resolved.input_price {
        Some(p) => p,
        None => {
            return Err(EnrichmentError::PriceUnavailable);
        },
    };
    let settled: Option<SettledAmount> = match &order.settled_amounts {
        Some(v) => if v.len() > 0 {
            Some(v[0])
        } else {
            None
        },
        None => None,
    };
    let settled_in_amt: Option<Uint256> = match settled {
        Some(s) => s.amount_in,
        None => None,
    };
    let settled_out_amt: Option<Uint256> = match settled {
        Some(s) => Some(s.amount_out),
        None => None,
    };
    let input_asset = match OrderAsset::new(
        in_tok,
        order.input.start_amount,
        order.input.end_amount,
        settled_in_amt,
        in_price,
    ) {
        Some(a) => a,
        None => {
            return Err(EnrichmentError::AmountConversionFailed);
        },
    };
    let output_asset = match OrderAsset::new(
        out_tok,
        out_leg.start_amount,
        out_leg.end_amount,
        settled_out_amt,
        out_price,
    ) {
        Some(a) => a,
        None => {
            return Err(EnrichmentError::AmountConversionFailed);
        },
    };
    let fee_asset: Option<OrderAsset> = match find_leg(&order.outputs, &cfg.fee_recipient, true) {
        Some(fi) => {
            let fee_leg: OutputLeg = order.outputs[fi];
            match OrderAsset::new(out_tok, fee_leg.start_amount, fee_leg.end_amount, None, out_price) {
                Some(a) => Some(a),
                None => {
                    return Err(EnrichmentError::AmountConversionFailed);
                },
            }
        },
        None => None,
    };
    let recipient = out_leg.recipient.to_hex();
    let details = decode_payload(order.encoded_order.as_str());
    let rec = Order {
        hash: order.order_hash.clone(),
        chain_id: order.chain_id,
        created_at: order.created_at,
        ty: order.order_type,
        status: order.order_status,
        input: input_asset,
        output: output_asset,
        fee: fee_asset,
        recipient,
        signature: order.signature.clone(),
        tx: match &order.tx_hash {
            Some(t) => Some(t.clone()),
            None => None,
        },
        details,
    };
    Ok(rec)
}

/// When both leg tokens resolve and both prices are answered, enrichment
/// succeeds; the record's symbols are the resolved tokens' symbols, and every
/// amount is the raw base-unit amount scaled by that token's decimal count —
/// held exactly as the quantity `raw / 10^decimals`.
pub proof fn lemma_enrich_resolved(o: FeedOrderView, cfg: ConfigView, res: ResolvedView, oi: int)
    requires
        !is_zero_bytes(o.input.token),
        0 <= oi < o.outputs.len(),
        first_leg_index(o.outputs, cfg.fee_recipient, false) == Some(oi),
        !is_zero_bytes(o.outputs[oi].token),
        res.input_token is Some,
        res.output_token is Some,
        res.input_price is Some,
        res.output_price is Some,
        amounts_representable(
            o.input.start_amount,
            o.input.end_amount,
            settled_in(first_settled(o.settled_amounts)),
        ),
        amounts_representable(
            o.outputs[oi].start_amount,
            o.outputs[oi].end_amount,
            settled_out(first_settled(o.settled_amounts)),
        ),
        first_leg_index(o.outputs, cfg.fee_recipient, true) matches Some(fi)
            ==> amounts_representable(o.outputs[fi].start_amount, o.outputs[fi].end_amount, None),
    ensures
        enrich_spec(o, cfg, res) is Ok,
        enrich_spec(o, cfg, res) matches Ok(rec) ==> {
            &&& res.input_token matches Some(it) && rec.input.symbol == it.symbol
                && rec.input.start_amount == scaled_spec(o.input.start_amount, it.decimals)
                && rec.input.end_amount == scaled_spec(o.input.end_amount, it.decimals)
            &&& res.output_token matches Some(ot) && rec.output.symbol == ot.symbol
                && rec.output.start_amount == scaled_spec(o.outputs[oi].start_amount, ot.decimals)
                && rec.output.end_amount == scaled_spec(o.outputs[oi].end_amount, ot.decimals)
        },
{
}

/// A zero-address input leg takes the configured native token identity: the
/// resolver's answer for that leg is never consulted — any two answer sets
/// that agree elsewhere enrich identically — and a successful record carries
/// the native token's symbol on its input side.
pub proof fn lemma_zero_input_uses_native(
    o: FeedOrderView,
    cfg: ConfigView,
    res: ResolvedView,
    other: ResolvedView,
)
    requires
        is_zero_bytes(o.input.token),
        other.output_token == res.output_token,
        other.input_price == res.input_price,
        other.output_price == res.output_price,
    ensures
        enrich_spec(o, cfg, res) == enrich_spec(o, cfg, other),
        enrich_spec(o, cfg, res) matches Ok(rec) ==> rec.input.symbol == cfg.native_token.symbol,
{
}

/// A zero-address output leg likewise takes the native identity, whatever
/// the resolver would have answered for it.
pub proof fn lemma_zero_output_uses_native(
    o: FeedOrderView,
    cfg: ConfigView,
    res: ResolvedView,
    other: ResolvedView,
    oi: int,
)
    requires
        0 <= oi < o.outputs.len(),
        first_leg_index(o.outputs, cfg.fee_recipient, false) == Some(oi),
        is_zero_bytes(o.outputs[oi].token),
        other.input_token == res.input_token,
        other.input_price == res.input_price,
        other.output_price == res.output_price,
    ensures
        enrich_spec(o, cfg, res) == enrich_spec(o, cfg, other),
        enrich_spec(o, cfg, res) matches Ok(rec) ==> rec.output.symbol == cfg.native_token.symbol,
{
}

/// An order whose every output leg pays the fee recipient cannot be
/// represented: once its input token identity is settled, enrichment fails
/// with `NoOutputLeg`, and no record is produced.
pub proof fn lemma_no_output_leg(o: FeedOrderView, cfg: ConfigView, res: ResolvedView)
    requires
        first_leg_index(o.outputs, cfg.fee_recipient, false) is None,
        resolved_token_spec(token_query_spec(o.input.token), res.input_token, cfg) is Some,
    ensures
        enrich_spec(o, cfg, res) == Err::<OrderView, EnrichmentError>(
            EnrichmentError::NoOutputLeg,
        ),
{
}

/// A successful record carries a fee exactly when some output leg pays the
/// fee recipient; the fee is derived from the first such leg, priced and
/// scaled as the output token.
pub proof fn lemma_fee_from_fee_leg(
    o: FeedOrderView,
    cfg: ConfigView,
    res: ResolvedView,
    rec: OrderView,
)
    requires
        enrich_spec(o, cfg, res) == Ok::<OrderView, EnrichmentError>(rec),
    ensures
        rec.fee is Some <==> first_leg_index(o.outputs, cfg.fee_recipient, true) is Some,
        first_leg_index(o.outputs, cfg.fee_recipient, true) matches Some(fi) ==> {
            &&& first_leg_index(o.outputs, cfg.fee_recipient, false) matches Some(oi)
                && resolved_token_spec(
                token_query_spec(o.outputs[oi].token),
                res.output_token,
                cfg,
            ) matches Some(out_tok)
                && res.output_price matches Some(op)
                && rec.fee == Some(
                asset_spec(
                    out_tok,
                    o.outputs[fi].start_amount,
                    o.outputs[fi].end_amount,
                    None,
                    op,
                ),
            )
        },
{
}

/// A successful record keeps its source order's hash as its identity, along
/// with the chain, the creation time, the type and the status: records with
/// distinct source hashes stay distinct under their hash key.
pub proof fn lemma_record_keyed_by_hash(
    o: FeedOrderView,
    cfg: ConfigView,
    res: ResolvedView,
    rec: OrderView,
)
    requires
        enrich_spec(o, cfg, res) == Ok::<OrderView, EnrichmentError>(rec),
    ensures
        rec.hash == o.order_hash,
        rec.chain_id == o.chain_id,
        rec.created_at == o.created_at,
        rec.ty == o.order_type,
        rec.status == o.order_status,
{
}

/// Enrichment has no hidden state: the same order, configuration and
/// collaborator answers always yield the same record or error.
pub proof fn lemma_enrich_deterministic(
    o: FeedOrderView,
    cfg: ConfigView,
    res: ResolvedView,
    r1: Result<OrderView, EnrichmentError>,
    r2: Result<OrderView, EnrichmentError>,
)
    requires
        r1 == enrich_spec(o, cfg, res),
        r2 == enrich_spec(o, cfg, res),
    ensures
        r1 == r2,
{
}

/// How the two token identities of one order are to be obtained, and where
/// its legs sit: what a caller must ask the resolver before enrichment.
pub struct EnrichmentPlan {
    pub input_query: TokenQuery,
    pub output_leg: Option<usize>,
    pub output_query: Option<TokenQuery>,
    pub fee_leg: Option<usize>,
}

/// Plans one order's enrichment: which token identities must be looked up
/// (zero-address legs are never sent to the resolver) and which legs are the
/// output and the fee.
pub fn plan_enrichment(order: &FeedOrder, cfg: &IndexerConfig) -> (r: EnrichmentPlan)
    ensures
        r.input_query@ == token_query_spec(order@.input.token),
        match r.output_leg {
            Some(i) => first_leg_index(order@.outputs, cfg@.fee_recipient, false) == Some(i as int)
                && i < order@.outputs.len()
                && (r.output_query matches Some(q) && q@ == token_query_spec(
                order@.outputs[i as int].token,
            )),
            None => first_leg_index(order@.outputs, cfg@.fee_recipient, false) is None
                && r.output_query is None,
        },
        match r.fee_leg {
            Some(i) => first_leg_index(order@.outputs, cfg@.fee_recipient, true) == Some(i as int),
            None => first_leg_index(order@.outputs, cfg@.fee_recipient, true) is None,
        },
{
    let input_query = token_query_of(&order.input.token);
    let output_leg = find_leg(&order.outputs, &cfg.fee_recipient, false);
    let output_query = match output_leg {
        Some(i) => Some(token_query_of(&order.outputs[i].token)),
        None => None,
    };
    let fee_leg = find_leg(&order.outputs, &cfg.fee_recipient, true);
    EnrichmentPlan { input_query, output_leg, output_query, fee_leg }
}

} // verus!
