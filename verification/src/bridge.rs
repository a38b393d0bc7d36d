//! The boundary to the `payjoin` crate and, through its re-export, to
//! `bitcoin`.  Everything here is trusted: each item's doc comment names
//! the outside function relied on.  The pipeline's own decisions live in
//! `receive`; this module only parses, converts and carries opaque
//! values.

use std::collections::HashMap;
use std::str::FromStr;

use vstd::multiset::Multiset;
use vstd::prelude::*;

use payjoin::receive::MaybeInputsOwned as PdkMaybeInputsOwned;
use payjoin::receive::MaybeInputsSeen as PdkMaybeInputsSeen;
use payjoin::receive::MaybeMixedInputScripts as PdkMaybeMixedInputScripts;
use payjoin::receive::OutputsUnknown as PdkOutputsUnknown;
use payjoin::receive::PayjoinProposal as PdkPayjoinProposal;
use payjoin::receive::UncheckedProposal as PdkUncheckedProposal;
use payjoin::bitcoin::TxOut as BtcTxOut;

use crate::error::PayjoinError;
use crate::guard::{MAX_FEERATE_SAT_PER_VB, MAX_MONEY_SATS};
use crate::receive::PayjoinProposal;
use crate::types::{contains_script, is_txid_chars, InputUtxo, OutPoint, ScriptBuf, TxOut};

verus! {

#[verifier::external_type_specification]
#[verifier::external_body]
pub struct ExUncheckedProposal(PdkUncheckedProposal);

#[verifier::external_type_specification]
#[verifier::external_body]
pub struct ExMaybeInputsOwned(PdkMaybeInputsOwned);

#[verifier::external_type_specification]
#[verifier::external_body]
pub struct ExMaybeMixedInputScripts(PdkMaybeMixedInputScripts);

#[verifier::external_type_specification]
#[verifier::external_body]
pub struct ExMaybeInputsSeen(PdkMaybeInputsSeen);

#[verifier::external_type_specification]
#[verifier::external_body]
pub struct ExOutputsUnknown(PdkOutputsUnknown);

#[verifier::external_type_specification]
#[verifier::external_body]
pub struct ExPayjoinProposal(PdkPayjoinProposal);

#[verifier::external_type_specification]
#[verifier::external_body]
pub struct ExBitcoinTransaction(payjoin::bitcoin::Transaction);

#[verifier::external_type_specification]
#[verifier::external_body]
pub struct ExBitcoinPsbt(payjoin::bitcoin::psbt::Psbt);

#[verifier::external_type_specification]
#[verifier::external_body]
pub struct ExBitcoinTxOut(BtcTxOut);

/// What bitcoin::base64::decode returns: the decoding is a function of
/// the input bytes alone, and no short statement of it exists.
pub uninterp spec fn base64_decoding(body: Seq<u8>) -> Option<Seq<u8>>;

/// Whether bitcoin::psbt::Psbt::deserialize accepts the bytes.  A
/// function of the bytes alone; no short statement of it exists.
pub uninterp spec fn psbt_parses(bytes: Seq<u8>) -> bool;

/// Whether bitcoin::Address::from_str accepts the string.  Parsing is a
/// function of the characters alone; no short statement of it exists, so
/// it is only named.
pub uninterp spec fn address_parses(s: Seq<char>) -> bool;

/// The outputs of the proposal's original transaction, in order: value
/// and locking script of each.  A deterministic reading of the
/// proposal.
pub uninterp spec fn pdk_unchecked_outputs(p: PdkUncheckedProposal) -> Seq<TxOut>;

/// What the classifier behind the mixed-scripts check computes for each
/// input the proposal holds, in input order: a code for the input's
/// script type, or nothing where the input's previous output cannot be
/// resolved or does not classify.  A deterministic reading of the
/// proposal's own inputs; no short statement of it exists.
pub uninterp spec fn mixed_input_kinds(p: PdkMaybeMixedInputScripts) -> Seq<Option<u8>>;

/// How many outputs the proposal's transaction has.
pub uninterp spec fn pdk_output_count(p: PdkPayjoinProposal) -> int;

/// The smallest output value of the proposal's transaction, in
/// satoshis; the money range's top where there is no output.
pub uninterp spec fn pdk_min_output_sats(p: PdkPayjoinProposal) -> u64;

/// The smallest value among the proposal's resolvable previous outputs,
/// in satoshis; the money range's top where there is none.
pub uninterp spec fn pdk_min_input_sats(p: PdkPayjoinProposal) -> u64;

/// The value of the proposal's first identified receiver output, in
/// satoshis.
pub uninterp spec fn pdk_prior_payment_sats(p: PdkPayjoinProposal) -> u64;

/// Whether the fee step can account the proposal's leading input: it
/// exists, its previous output resolves, and it classifies to a known
/// spending weight.  A deterministic reading of the proposal.
pub uninterp spec fn pdk_fee_accountable(p: PdkPayjoinProposal) -> bool;

/// The serialization of the PSBT the fee step returns for the proposal
/// at the given effective rate floor; deterministic in both.
pub uninterp spec fn pdk_fee_psbt(p: PdkPayjoinProposal, rate_floor: u64) -> Seq<u8>;

/// The canonical serialization of a PSBT, as its codec emits it.
pub uninterp spec fn psbt_encoding(p: payjoin::bitcoin::psbt::Psbt) -> Seq<u8>;

/// The output-substitution flag negotiated in the sender's parameters,
/// as the proposal carries it.
pub uninterp spec fn pdk_substitution_disabled(p: PdkPayjoinProposal) -> bool;

/// The outpoints the proposal's transaction spends, as a multiset of
/// (transaction id, output index) pairs: contributions insert at a
/// random position, so only the multiset is determined.
pub uninterp spec fn pdk_input_outpoints(p: PdkPayjoinProposal) -> Multiset<(Seq<char>, u32)>;

/// The locking script of the proposal's first identified receiver
/// output.
pub uninterp spec fn pdk_receiver_script(p: PdkPayjoinProposal) -> Seq<u8>;

/// The locking script a parseable address string denotes; a function of
/// the characters alone.
pub uninterp spec fn address_script(s: Seq<char>) -> Seq<u8>;

/// The rate floor the fee step runs at for a given argument: the given
/// rate, or zero where none is given.
pub open spec fn spec_rate_floor(rate: Option<u64>) -> u64 {
    match rate {
        Some(f) => f,
        None => 0,
    }
}

/// The unnecessary-input rule the selector avoids: a candidate of `k`
/// satoshis is acceptable exactly when, after adding it, the smallest
/// output is strictly below the smallest input — the optimal-change
/// shape ordinary payments have.
pub open spec fn uih_avoids(min_out: u64, min_in: u64, prior_payment: u64, k: u64) -> bool {
    vstd::math::min(
        min_out as int,
        prior_payment as int + k as int,
    ) < vstd::math::min(min_in as int, k as int)
}

/// A consensus transaction, held opaquely, together with the plain
/// model of its outputs that the codec boundary extracts on
/// construction.
pub struct RawTransaction {
    inner: payjoin::bitcoin::Transaction,
    outs: Vec<TxOut>,
}

impl RawTransaction {
    /// The transaction's outputs, as this value carries them.
    pub closed spec fn spec_outputs(&self) -> Seq<TxOut> {
        self.outs@
    }

    /// Give the outputs up, consuming the value.
    pub fn into_outputs(self) -> (r: Vec<TxOut>)
        ensures
            r@ == self.spec_outputs(),
    {
        self.outs
    }
}

/// A partially signed transaction, held opaquely; produced by the fee
/// step and consumed by the finalize step.
pub struct PartiallySignedTransaction {
    inner: payjoin::bitcoin::psbt::Psbt,
}

impl PartiallySignedTransaction {
    /// The PSBT this value holds.
    pub closed spec fn spec_psbt(&self) -> payjoin::bitcoin::psbt::Psbt {
        self.inner
    }
}

/// A bitcoin address, kept as the string that was proven to parse when
/// the value was constructed.
pub struct BtcAddress {
    pub address: String,
}

impl BtcAddress {
    /// The constructor established that the string parses.
    pub open spec fn wf(&self) -> bool {
        address_parses(self.address@)
    }
}

impl RawTransaction {
    /// Relies on bitcoin::consensus::encode::serialize: the standard
    /// consensus encoding of the transaction.
    #[verifier::external_body]
    pub fn serialize(&self) -> (r: Vec<u8>) {
        payjoin::bitcoin::consensus::encode::serialize(&self.inner)
    }

    /// Relies on bitcoin::consensus::encode::deserialize: parses a
    /// consensus-encoded transaction, rejecting trailing bytes, and
    /// models its outputs from the public `output` field.
    #[verifier::external_body]
    pub fn deserialize(bytes: &[u8]) -> (r: Result<RawTransaction, PayjoinError>)
        ensures
            r matches Err(e) ==> e == PayjoinError::RequestMalformed,
    {
        match payjoin::bitcoin::consensus::encode::deserialize::<payjoin::bitcoin::Transaction>(
            bytes,
        ) {
            Ok(tx) => {
                let outs = tx.output.iter().map(to_txout).collect();
                Ok(RawTransaction { inner: tx, outs })
            },
            Err(_) => Err(PayjoinError::RequestMalformed),
        }
    }

    /// How many outputs the transaction has.
    pub fn output_count(&self) -> (r: usize)
        ensures
            r == self.spec_outputs().len(),
    {
        self.outs.len()
    }

    /// One output of the transaction, by index.
    pub fn output(&self, vout: usize) -> (r: Option<&TxOut>)
        ensures
            r matches Some(o) ==> vout < self.spec_outputs().len() && *o == self.spec_outputs()[vout as int],
            r is None <==> vout >= self.spec_outputs().len(),
    {
        if vout < self.outs.len() {
            Some(&self.outs[vout])
        } else {
            None
        }
    }
}

/// One output's plain model, picked from the public fields of
/// bitcoin::TxOut.
#[verifier::external_body]
fn to_txout(o: &BtcTxOut) -> (r: TxOut) {
    TxOut { value: o.value, script_pubkey: ScriptBuf { bytes: o.script_pubkey.to_bytes() } }
}

impl BtcAddress {
    /// Relies on bitcoin::Address::from_str: parses the address string;
    /// the address is accepted for whatever network it encodes.
    #[verifier::external_body]
    pub fn new(address: String) -> (r: Result<BtcAddress, PayjoinError>)
        ensures
            r matches Ok(a) ==> a.wf() && address_parses(address@),
            r matches Err(e) ==> e == PayjoinError::RequestMalformed && !address_parses(address@),
    {
        match payjoin::bitcoin::Address::from_str(address.as_str()) {
            Ok(_) => Ok(BtcAddress { address }),
            Err(_) => Err(PayjoinError::RequestMalformed),
        }
    }

    /// Relies on bitcoin::Address::from_str and script_pubkey: the locking
    /// script the address denotes.
    #[verifier::external_body]
    pub fn script_pubkey(&self) -> (r: ScriptBuf)
        requires
            self.wf(),
        ensures
            r.bytes@ == address_script(self.address@),
    {
        let a = payjoin::bitcoin::Address::from_str(self.address.as_str()).unwrap();
        ScriptBuf { bytes: a.assume_checked().script_pubkey().to_bytes() }
    }
}

/// Relies on payjoin::receive::UncheckedProposal::from_request: parses
/// the base64 PSBT body and the BIP78 query parameters, honouring the
/// content-type and content-length headers; every failure is a
/// protocol-level parse failure.
#[verifier::external_body]
pub(crate) fn parse_request<H: payjoin::receive::Headers>(
    body: &[u8],
    query: &str,
    headers: H,
) -> (r: Result<PdkUncheckedProposal, PayjoinError>)
    ensures
        r matches Err(e) ==> e == PayjoinError::RequestMalformed,
{
    match PdkUncheckedProposal::from_request(body, query, headers) {
        Ok(p) => Ok(p),
        Err(_) => Err(PayjoinError::RequestMalformed),
    }
}

/// Relies on payjoin::receive::UncheckedProposal::get_transaction_to_schedule_broadcast:
/// the sender's original transaction, extracted from the PSBT, its
/// outputs modeled from the public `output` field — exactly the
/// proposal's named outputs.
#[verifier::external_body]
pub(crate) fn original_transaction(p: &PdkUncheckedProposal) -> (r: RawTransaction)
    ensures
        r.spec_outputs() == pdk_unchecked_outputs(*p),
{
    let tx = p.get_transaction_to_schedule_broadcast();
    let outs = tx.output.iter().map(to_txout).collect();
    RawTransaction { inner: tx, outs }
}

/// Relies on bitcoin::psbt::Psbt::extract_tx: the transaction the PSBT
/// is negotiating, extracted the same way the accepted proposal's own
/// getter extracts it, its outputs modeled from the public `output`
/// field.
#[verifier::external_body]
pub(crate) fn psbt_extracted_tx(p: &payjoin::bitcoin::psbt::Psbt) -> (r: RawTransaction) {
    let tx = p.clone().extract_tx();
    let outs = tx.output.iter().map(to_txout).collect();
    RawTransaction { inner: tx, outs }
}

/// Relies on the public `input` field of bitcoin::Transaction: one
/// outpoint per input, the transaction id rendered as its usual
/// 64-digit lower-case hexadecimal string.
#[verifier::external_body]
pub(crate) fn tx_outpoints(t: &RawTransaction) -> (r: Vec<OutPoint>)
    ensures
        forall|i: int| 0 <= i < r@.len() ==> is_txid_chars(#[trigger] r@[i].txid@),
{
    t.inner
        .input
        .iter()
        .map(|txin| OutPoint {
            txid: txin.previous_output.txid.to_string(),
            vout: txin.previous_output.vout,
        })
        .collect()
}

/// Relies on payjoin::receive::UncheckedProposal::assume_interactive_receiver:
/// it rewraps the proposal unchanged as the next typestate.
#[verifier::external_body]
pub(crate) fn advance_unchecked(
    p: PdkUncheckedProposal,
) -> (r: PdkMaybeInputsOwned) {
    p.assume_interactive_receiver()
}

/// Relies on bitcoin::base64::decode: standard base64 decoding, a
/// function of the bytes alone, named by `base64_decoding`.
#[verifier::external_body]
pub(crate) fn decode_base64(body: &[u8]) -> (r: Option<Vec<u8>>)
    ensures
        r matches Some(v) ==> base64_decoding(body@) == Some(v@),
        r is None <==> base64_decoding(body@) is None,
{
    payjoin::bitcoin::base64::decode(body).ok()
}

/// Relies on bitcoin::psbt::Psbt::deserialize: parses a binary PSBT;
/// acceptance is a function of the bytes alone, named by `psbt_parses`.
#[verifier::external_body]
pub(crate) fn parse_psbt(bytes: &[u8]) -> (r: Option<payjoin::bitcoin::psbt::Psbt>)
    ensures
        r is Some <==> psbt_parses(bytes@),
{
    payjoin::bitcoin::psbt::Psbt::deserialize(bytes).ok()
}

/// Relies on the public `inputs` field of bitcoin::psbt::Psbt and the
/// `input` field of its unsigned transaction: for each input, the
/// witness utxo's script, the legacy previous transaction's output
/// scripts, and the spent output index.
#[verifier::external_body]
pub(crate) fn psbt_input_utxos(p: &payjoin::bitcoin::psbt::Psbt) -> (r: Vec<InputUtxo>) {
    let to_script = |o: &payjoin::bitcoin::TxOut| ScriptBuf { bytes: o.script_pubkey.to_bytes() };
    p.unsigned_tx
        .input
        .iter()
        .zip(&p.inputs)
        .map(|(txin, psbtin)| InputUtxo {
            witness_script: psbtin.witness_utxo.as_ref().map(to_script),
            prev_output_scripts: psbtin
                .non_witness_utxo
                .as_ref()
                .map(|tx| tx.output.iter().map(to_script).collect()),
            prev_vout: txin.previous_output.vout,
            final_script_sig: psbtin.final_script_sig.as_ref().map(|sig| sig.to_bytes()),
        })
        .collect()
}

/// Relies on payjoin::receive::MaybeInputsOwned::check_inputs_not_owned: with a
/// callback reporting every script unowned the call only checks that
/// every input's previous output is present, failing with its
/// bad-request error otherwise, and rewraps the proposal; the ownership
/// decision is taken by this crate before this call.
#[verifier::external_body]
pub(crate) fn advance_inputs_owned(
    p: PdkMaybeInputsOwned,
) -> (r: Result<PdkMaybeMixedInputScripts, PayjoinError>)
    ensures
        r matches Err(e) ==> e == PayjoinError::ValidationRejected,
{
    match p.check_inputs_not_owned(|_| Ok(false)) {
        Ok(next) => Ok(next),
        Err(_) => Err(PayjoinError::ValidationRejected),
    }
}

/// Relies on payjoin::receive::MaybeMixedInputScripts::check_no_mixed_input_scripts:
/// succeeds exactly when every input of the proposal classifies and all
/// classifications agree, stated over the named classification of the
/// proposal's own inputs.
#[verifier::external_body]
pub(crate) fn check_no_mixed(
    p: PdkMaybeMixedInputScripts,
) -> (r: Result<PdkMaybeInputsSeen, PayjoinError>)
    ensures
        r is Ok <==> ((forall|i: int|
            0 <= i < mixed_input_kinds(p).len() ==> (#[trigger] mixed_input_kinds(p)[i])
                is Some) && (forall|i: int|
            0 <= i < mixed_input_kinds(p).len() ==> (#[trigger] mixed_input_kinds(p)[i])
                == mixed_input_kinds(p)[0])),
        r matches Err(e) ==> e == PayjoinError::ValidationRejected,
{
    match p.check_no_mixed_input_scripts() {
        Ok(next) => Ok(next),
        Err(_) => Err(PayjoinError::ValidationRejected),
    }
}

/// Relies on payjoin::receive::MaybeInputsSeen::check_no_inputs_seen_before:
/// with a callback reporting every outpoint unseen the call cannot fail
/// and only rewraps the proposal; the seen-before decision is taken by
/// this crate before this call.
#[verifier::external_body]
pub(crate) fn advance_inputs_seen(
    p: PdkMaybeInputsSeen,
) -> (r: PdkOutputsUnknown) {
    p.check_no_inputs_seen_before(|_| Ok(false))
        .expect("a callback reporting every outpoint unseen cannot fail")
}

/// Relies on payjoin::receive::OutputsUnknown::identify_receiver_outputs:
/// the callback marks exactly the outputs whose script is in `owned`;
/// the call fails only with its missing-payment error, when no output
/// is marked.
#[verifier::external_body]
pub(crate) fn identify_outputs(
    p: PdkOutputsUnknown,
    owned: &Vec<ScriptBuf>,
) -> (r: Result<PdkPayjoinProposal, PayjoinError>)
    ensures
        r matches Err(e) ==> e == PayjoinError::ValidationRejected,
{
    match p.identify_receiver_outputs(|script| Ok(contains_script(owned, script.as_bytes()))) {
        Ok(next) => Ok(next),
        Err(_) => Err(PayjoinError::ValidationRejected),
    }
}

/// Relies on payjoin::receive::PayjoinProposal::is_output_substitution_disabled:
/// the negotiated flag from the sender's query parameters.
#[verifier::external_body]
pub(crate) fn output_substitution_disabled(p: &PdkPayjoinProposal) -> (r: bool)
    ensures
        r == pdk_substitution_disabled(*p),
{
    p.is_output_substitution_disabled()
}

/// Relies on payjoin::receive::PayjoinProposal::try_preserving_privacy:
/// selects a candidate avoiding the unnecessary-input heuristics; it
/// never alters the proposal, and an accepted candidate is one of those
/// given, its transaction id rendered back to lower-case hexadecimal.
/// The pipeline admits no original output above the money range and
/// caps contributed value by `credit_left`, so with every candidate in
/// the money range too the selector's sums stay within 64 bits.
#[verifier::external_body]
pub(crate) fn select_candidate(
    p: &PayjoinProposal,
    candidates: &HashMap<u64, OutPoint>,
) -> (r: Result<OutPoint, PayjoinError>)
    requires
        !p.is_consumed(),
        forall|k: u64| #[trigger]
            candidates@.dom().contains(k) ==> is_txid_chars(candidates@[k].txid@) && k
                <= MAX_MONEY_SATS,
    ensures
        r is Ok <==> (pdk_output_count(p.spec_pdk()) == 2 && exists|k: u64|
            #[trigger] candidates@.dom().contains(k) && uih_avoids(
                pdk_min_output_sats(p.spec_pdk()),
                pdk_min_input_sats(p.spec_pdk()),
                pdk_prior_payment_sats(p.spec_pdk()),
                k,
            )),
        r matches Ok(o) ==> exists|k: u64|
            #[trigger] candidates@.dom().contains(k) && candidates@[k].txid@ == o.txid@
                && candidates@[k].vout == o.vout && uih_avoids(
                pdk_min_output_sats(p.spec_pdk()),
                pdk_min_input_sats(p.spec_pdk()),
                pdk_prior_payment_sats(p.spec_pdk()),
                k,
            ),
        r matches Err(e) ==> e == PayjoinError::SelectionExhausted,
{
    let mut converted: HashMap<payjoin::bitcoin::Amount, payjoin::bitcoin::OutPoint> =
        HashMap::new();
    for (amount, op) in candidates.iter() {
        let txid = payjoin::bitcoin::Txid::from_str(op.txid.as_str()).unwrap();
        let outpoint = payjoin::bitcoin::OutPoint { txid, vout: op.vout };
        converted.insert(payjoin::bitcoin::Amount::from_sat(*amount), outpoint);
    }
    match p.inner.as_ref().unwrap().try_preserving_privacy(converted) {
        Ok(o) => Ok(OutPoint { txid: o.txid.to_string(), vout: o.vout }),
        Err(_) => Err(PayjoinError::SelectionExhausted),
    }
}

/// Relies on payjoin::receive::PayjoinProposal::contribute_witness_input:
/// adds the receiver input and credits its value to a receiver output.
/// The credit stays within `credit_left`, so no output value overflows,
/// and the contributed script is one whose weight the fee step can
/// account for if this input later heads the list.
#[verifier::external_body]
pub(crate) fn contribute_witness(
    p: &mut PayjoinProposal,
    txout: &TxOut,
    outpoint: &OutPoint,
)
    requires
        !old(p).is_consumed(),
        is_txid_chars(outpoint.txid@),
        txout.value <= old(p).spec_credit_left(),
        crate::guard::spec_contributed_script_accounted(txout.script_pubkey.bytes@),
    ensures
        !final(p).is_consumed(),
        final(p).fee_is_applied() == old(p).fee_is_applied(),
        final(p).weight_guard() == old(p).weight_guard(),
        final(p).params_guard() == old(p).params_guard(),
        final(p).spec_credit_left() == old(p).spec_credit_left(),
        pdk_input_outpoints(final(p).spec_pdk()) == pdk_input_outpoints(
            old(p).spec_pdk(),
        ).insert((outpoint.txid@, outpoint.vout)),
        pdk_substitution_disabled(final(p).spec_pdk()) == pdk_substitution_disabled(
            old(p).spec_pdk(),
        ),
        pdk_receiver_script(final(p).spec_pdk()) == pdk_receiver_script(old(p).spec_pdk()),
{
    let spk = payjoin::bitcoin::ScriptBuf::from_bytes(txout.script_pubkey.bytes.clone());
    let txid = payjoin::bitcoin::Txid::from_str(outpoint.txid.as_str()).unwrap();
    p.inner.as_mut().unwrap().contribute_witness_input(
        BtcTxOut { value: txout.value, script_pubkey: spk },
        payjoin::bitcoin::OutPoint { txid, vout: outpoint.vout },
    );
}

/// Relies on payjoin::receive::PayjoinProposal::contribute_non_witness_input:
/// adds the receiver input with its full previous transaction; the
/// outpoint's index lies within that transaction's modeled outputs, the
/// credited value stays within `credit_left`, and the spent script is
/// one whose weight the fee step can account for.
#[verifier::external_body]
pub(crate) fn contribute_non_witness(
    p: &mut PayjoinProposal,
    tx: &RawTransaction,
    outpoint: &OutPoint,
)
    requires
        !old(p).is_consumed(),
        is_txid_chars(outpoint.txid@),
        (outpoint.vout as int) < tx.spec_outputs().len(),
        tx.spec_outputs()[outpoint.vout as int].value <= old(p).spec_credit_left(),
        crate::guard::spec_contributed_script_accounted(
            tx.spec_outputs()[outpoint.vout as int].script_pubkey.bytes@,
        ),
    ensures
        !final(p).is_consumed(),
        final(p).fee_is_applied() == old(p).fee_is_applied(),
        final(p).weight_guard() == old(p).weight_guard(),
        final(p).params_guard() == old(p).params_guard(),
        final(p).spec_credit_left() == old(p).spec_credit_left(),
        pdk_input_outpoints(final(p).spec_pdk()) == pdk_input_outpoints(
            old(p).spec_pdk(),
        ).insert((outpoint.txid@, outpoint.vout)),
        pdk_substitution_disabled(final(p).spec_pdk()) == pdk_substitution_disabled(
            old(p).spec_pdk(),
        ),
        pdk_receiver_script(final(p).spec_pdk()) == pdk_receiver_script(old(p).spec_pdk()),
{
    let txid = payjoin::bitcoin::Txid::from_str(outpoint.txid.as_str()).unwrap();
    p.inner.as_mut().unwrap().contribute_non_witness_input(
        tx.inner.clone(),
        payjoin::bitcoin::OutPoint { txid, vout: outpoint.vout },
    );
}

/// Relies on payjoin::receive::PayjoinProposal::substitute_output_address:
/// replaces the receiver-identified output's script with the address's.
#[verifier::external_body]
pub(crate) fn substitute_address(
    p: &mut PayjoinProposal,
    address: &BtcAddress,
)
    requires
        !old(p).is_consumed(),
        address.wf(),
    ensures
        !final(p).is_consumed(),
        final(p).fee_is_applied() == old(p).fee_is_applied(),
        final(p).weight_guard() == old(p).weight_guard(),
        final(p).params_guard() == old(p).params_guard(),
        final(p).spec_credit_left() == old(p).spec_credit_left(),
        pdk_receiver_script(final(p).spec_pdk()) == address_script(address.address@),
        pdk_input_outpoints(final(p).spec_pdk()) == pdk_input_outpoints(old(p).spec_pdk()),
        pdk_substitution_disabled(final(p).spec_pdk()) == pdk_substitution_disabled(
            old(p).spec_pdk(),
        ),
{
    let a = payjoin::bitcoin::Address::from_str(address.address.as_str()).unwrap();
    p.inner.as_mut().unwrap().substitute_output_address(a.assume_checked());
}

/// Relies on payjoin::receive::PayjoinProposal::apply_fee: computes the
/// receiver's fee contribution, adjusts the sender's designated output
/// and returns the resulting PSBT; a malformed proposal yields its
/// request error.  The guards exclude its aborts: the weight guard says
/// every input that can head the list (the original first input,
/// screened at ingestion, and the screened contributions) has an
/// accounted weight; the parameter guard says any fee parameters name
/// an existing output able to pay the contribution, and bound the
/// sender's minimum fee rate; with the fee rates bounded the fee
/// product stays within 64 bits.
#[verifier::external_body]
pub(crate) fn apply_fee(
    p: &mut PayjoinProposal,
    min_feerate_sat_per_vb: Option<u64>,
) -> (r: Result<PartiallySignedTransaction, PayjoinError>)
    requires
        !old(p).is_consumed(),
        old(p).weight_guard(),
        old(p).params_guard(),
        min_feerate_sat_per_vb matches Some(f) ==> f <= MAX_FEERATE_SAT_PER_VB,
    ensures
        r matches Err(e) ==> e == PayjoinError::RequestMalformed,
        r is Ok <==> pdk_fee_accountable(old(p).spec_pdk()),
        r matches Ok(x) ==> psbt_encoding(x.spec_psbt()) == pdk_fee_psbt(
            old(p).spec_pdk(),
            spec_rate_floor(min_feerate_sat_per_vb),
        ),
        !final(p).is_consumed(),
        final(p).fee_is_applied() == old(p).fee_is_applied(),
        final(p).weight_guard() == old(p).weight_guard(),
        final(p).params_guard() == old(p).params_guard(),
        final(p).spec_credit_left() == old(p).spec_credit_left(),
        pdk_input_outpoints(final(p).spec_pdk()) == pdk_input_outpoints(old(p).spec_pdk()),
        pdk_substitution_disabled(final(p).spec_pdk()) == pdk_substitution_disabled(
            old(p).spec_pdk(),
        ),
{
    let p = p.inner.as_mut().unwrap();
    match p.apply_fee(min_feerate_sat_per_vb) {
        Ok(psbt) => Ok(PartiallySignedTransaction { inner: psbt.clone() }),
        Err(_) => Err(PayjoinError::RequestMalformed),
    }
}

/// Relies on payjoin::receive::PayjoinProposal::prepare_psbt: merges the
/// signed PSBT back in and clears the sender-input artifacts.  Its body
/// has no failure path, so the call always succeeds.
#[verifier::external_body]
pub(crate) fn prepare_psbt(
    p: PdkPayjoinProposal,
    processed: &PartiallySignedTransaction,
) -> (r: Result<PartiallySignedTransaction, PayjoinError>)
    ensures
        r is Ok,
{
    match p.prepare_psbt(processed.inner.clone()) {
        Ok(psbt) => Ok(PartiallySignedTransaction { inner: psbt }),
        Err(_) => Err(PayjoinError::RequestMalformed),
    }
}

} // verus!
