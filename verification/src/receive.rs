//! The six-stage validation pipeline and the proposal builder.
//!
//! Each validation stage holds its resident value in a slot that a
//! consuming method empties on first use; a second consuming call on
//! the same handle reports an illegal-reuse error instead of
//! succeeding or aborting.  The builder stage mutates its value in
//! place until the fee barrier falls; after `apply_fee` every mutation
//! is refused, and `prepare_psbt` is the single consuming call that
//! ends the builder's life.

use std::collections::HashMap;

use vstd::prelude::*;

use crate::bridge;
use crate::bridge::{BtcAddress, PartiallySignedTransaction, RawTransaction};
use crate::decimal::{decimal_rep, u64_to_decimal};
use crate::error::PayjoinError;
use crate::guard::{
    certify_fee_params, check_contributed_script, check_input_weight_accounted,
    spec_contributed_script_accounted, MAX_FEERATE_SAT_PER_VB, MAX_MONEY_SATS,
};
use crate::types::{
    is_txid_chars, resolve_prev_script, spec_prev_script, CanBroadcast, InputUtxo, IsOutputKnown,
    IsScriptOwned, OutPoint, ScriptBuf, TxOut,
};

verus! {

/// The header lookup a locally-synthesized request carries: a plain
/// content type and the body's length in decimal.
pub struct Headers {
    pub content_type: String,
    pub content_length: String,
}

impl Headers {
    /// Headers synthesized from a request body.
    pub fn from_vec(body: Vec<u8>) -> (r: Headers)
        ensures
            r.content_type@ == "text/plain"@,
            r.content_length@ == decimal_rep(body@.len() as nat),
    {
        let n = body.len();
        Headers { content_type: "text/plain".to_owned(), content_length: u64_to_decimal(n as u64) }
    }

    /// The headers as name-to-value pairs, names lower-cased: exactly
    /// the content type and content length this value stores, in that
    /// order, so two calls return equal maps.
    pub fn get_map(&self) -> (r: Vec<(String, String)>)
        ensures
            r@.len() == 2,
            r@[0].0@ == "content-type"@ && r@[0].1@ == self.content_type@,
            r@[1].0@ == "content-length"@ && r@[1].1@ == self.content_length@,
    {
        let mut m: Vec<(String, String)> = Vec::new();
        m.push(("content-type".to_owned(), self.content_type.clone()));
        m.push(("content-length".to_owned(), self.content_length.clone()));
        proof {
            reveal_strlit("content-type");
            reveal_strlit("content-length");
        }
        m
    }
}

fn take_vec<T>(v: &mut Vec<T>) -> (r: Vec<T>)
    ensures
        r@ == old(v)@,
{
    let mut taken: Vec<T> = Vec::new();
    core::mem::swap(&mut taken, v);
    taken
}

fn copy_bytes(v: &Vec<u8>) -> (r: Vec<u8>)
    ensures
        r@ == v@,
{
    let mut r: Vec<u8> = Vec::new();
    let mut i: usize = 0;
    while i < v.len()
        invariant
            0 <= i <= v@.len(),
            r@ == v@.subrange(0, i as int),
        decreases v@.len() - i,
    {
        r.push(v[i]);
        i += 1;
    }
    proof {
        assert(r@ =~= v@);
    }
    r
}

/// What the ingestion screens found out about the request, carried to
/// the fee step: whether the original first input's weight is
/// accounted, and whether the sender's fee parameters are certified
/// harmless.  Neither gates the validation stages; a failed screen only
/// makes the fee step report the request malformed instead of aborting.
#[derive(Clone, Copy)]
pub struct FeeGuard {
    pub first_input_ok: bool,
    pub fee_params_ok: bool,
}

/// The broadcast gate's rule on the mempool predicate's answer: only a
/// positive answer lets the proposal through; a negative answer is a
/// validation rejection and a failed predicate is surfaced as a
/// callback failure.
pub fn decide_broadcast_answer(answer: Result<bool, PayjoinError>) -> (r: Result<
    (),
    PayjoinError,
>)
    ensures
        r is Ok <==> answer == Ok::<bool, PayjoinError>(true),
        answer == Ok::<bool, PayjoinError>(false) ==> r == Err::<(), PayjoinError>(
            PayjoinError::ValidationRejected,
        ),
        answer is Err ==> r == Err::<(), PayjoinError>(PayjoinError::CallbackFailed),
{
    match answer {
        Ok(true) => Ok(()),
        Ok(false) => Err(PayjoinError::ValidationRejected),
        Err(_) => Err(PayjoinError::CallbackFailed),
    }
}

/// Whether every answer a screening predicate gave was a definite
/// "no".
pub open spec fn all_unseen(answers: Seq<Result<bool, PayjoinError>>) -> bool {
    forall|i: int| 0 <= i < answers.len() ==> (#[trigger] answers[i]) == Ok::<
        bool,
        PayjoinError,
    >(false)
}

/// The rule shared by the input-ownership and seen-before screens: the
/// check passes exactly when the predicate answered "no" for every
/// item; the first "yes" rejects the proposal, and a predicate failure
/// before any "yes" is surfaced as a callback failure.
pub fn decide_screening_answers(answers: &Vec<Result<bool, PayjoinError>>) -> (r: Result<
    (),
    PayjoinError,
>)
    ensures
        r is Ok || r == Err::<(), PayjoinError>(PayjoinError::ValidationRejected) || r == Err::<
            (),
            PayjoinError,
        >(PayjoinError::CallbackFailed),
        r is Ok <==> all_unseen(answers@),
        (exists|i: int|
            0 <= i < answers@.len() && (#[trigger] answers@[i]) == Ok::<bool, PayjoinError>(true)
                && (forall|j: int|
                0 <= j < i ==> (#[trigger] answers@[j]) == Ok::<bool, PayjoinError>(false))) ==> r
            == Err::<(), PayjoinError>(PayjoinError::ValidationRejected),
        (exists|i: int|
            0 <= i < answers@.len() && (#[trigger] answers@[i]) is Err && (forall|j: int|
                0 <= j < i ==> (#[trigger] answers@[j]) == Ok::<bool, PayjoinError>(false))) ==> r
            == Err::<(), PayjoinError>(PayjoinError::CallbackFailed),
{
    let mut i: usize = 0;
    while i < answers.len()
        invariant
            0 <= i <= answers@.len(),
            forall|j: int| 0 <= j < i ==> (#[trigger] answers@[j]) == Ok::<bool, PayjoinError>(
                false,
            ),
        decreases answers@.len() - i,
    {
        match answers[i] {
            Ok(false) => {
            },
            Ok(true) => {
                return Err(PayjoinError::ValidationRejected);
            },
            Err(_) => {
                return Err(PayjoinError::CallbackFailed);
            },
        }
        i += 1;
    }
    Ok(())
}

/// The receiver-output rule: identification succeeds exactly when every
/// ownership answer is definite and at least one output is owned; the
/// first predicate failure is surfaced as a callback failure, and a
/// proposal paying the receiver nothing is rejected.
pub fn decide_receiver_outputs(answers: &Vec<Result<bool, PayjoinError>>) -> (r: Result<
    (),
    PayjoinError,
>)
    ensures
        r is Ok || r == Err::<(), PayjoinError>(PayjoinError::ValidationRejected) || r == Err::<
            (),
            PayjoinError,
        >(PayjoinError::CallbackFailed),
        r is Ok <==> ((forall|i: int| 0 <= i < answers@.len() ==> (#[trigger] answers@[i]) is Ok)
            && (exists|i: int|
            0 <= i < answers@.len() && (#[trigger] answers@[i]) == Ok::<bool, PayjoinError>(
                true,
            ))),
        (exists|i: int|
            0 <= i < answers@.len() && (#[trigger] answers@[i]) is Err && (forall|j: int|
                0 <= j < i ==> (#[trigger] answers@[j]) is Ok)) ==> r == Err::<
            (),
            PayjoinError,
        >(PayjoinError::CallbackFailed),
        ((forall|i: int| 0 <= i < answers@.len() ==> (#[trigger] answers@[i]) is Ok) && !(exists|
            i: int,
        |
            0 <= i < answers@.len() && (#[trigger] answers@[i]) == Ok::<bool, PayjoinError>(
                true,
            ))) ==> r == Err::<(), PayjoinError>(PayjoinError::ValidationRejected),
{
    let mut i: usize = 0;
    let mut any_owned: bool = false;
    while i < answers.len()
        invariant
            0 <= i <= answers@.len(),
            forall|j: int| 0 <= j < i ==> (#[trigger] answers@[j]) is Ok,
            any_owned <==> exists|j: int|
                0 <= j < i && (#[trigger] answers@[j]) == Ok::<bool, PayjoinError>(true),
        decreases answers@.len() - i,
    {
        match answers[i] {
            Ok(true) => {
                any_owned = true;
            },
            Ok(false) => {
            },
            Err(_) => {
                return Err(PayjoinError::CallbackFailed);
            },
        }
        i += 1;
    }
    if any_owned {
        Ok(())
    } else {
        Err(PayjoinError::ValidationRejected)
    }
}

/// The sender's original PSBT and its optional parameters, not yet
/// checked for business-logic safety.  Exactly one of
/// `check_can_broadcast` and `assume_interactive_receiver` consumes it.
pub struct UncheckedProposal {
    inner: Option<payjoin::receive::UncheckedProposal>,
    input_utxos: Vec<InputUtxo>,
    outpoints: Vec<OutPoint>,
    outputs: Vec<TxOut>,
    guard: FeeGuard,
}

/// Typestate that still has to prove no input is receiver-owned.
pub struct MaybeInputsOwned {
    inner: Option<payjoin::receive::MaybeInputsOwned>,
    input_utxos: Vec<InputUtxo>,
    outpoints: Vec<OutPoint>,
    outputs: Vec<TxOut>,
    guard: FeeGuard,
}

/// Typestate that still has to prove the inputs spend one script type.
pub struct MaybeMixedInputScripts {
    inner: Option<payjoin::receive::MaybeMixedInputScripts>,
    outpoints: Vec<OutPoint>,
    outputs: Vec<TxOut>,
    guard: FeeGuard,
}

/// Typestate that still has to prove no input was seen before.
pub struct MaybeInputsSeen {
    inner: Option<payjoin::receive::MaybeInputsSeen>,
    outpoints: Vec<OutPoint>,
    outputs: Vec<TxOut>,
    guard: FeeGuard,
}

/// Typestate that still has to identify the outputs paying the
/// receiver.
pub struct OutputsUnknown {
    inner: Option<payjoin::receive::OutputsUnknown>,
    outputs: Vec<TxOut>,
    guard: FeeGuard,
}

/// The checked proposal the receiver may augment: mutated in place
/// until the fee barrier falls, then consumed once by `prepare_psbt`.
pub struct PayjoinProposal {
    pub(crate) inner: Option<payjoin::receive::PayjoinProposal>,
    pub(crate) fee_applied: bool,
    pub(crate) guard: FeeGuard,
    pub(crate) credit_left: u64,
}

impl UncheckedProposal {
    /// Whether a consuming call already emptied this handle.
    pub closed spec fn is_consumed(&self) -> bool {
        self.inner is None
    }

    /// The proposal this handle holds.
    pub closed spec fn spec_pdk(&self) -> payjoin::receive::UncheckedProposal {
        self.inner.unwrap()
    }

    /// The input outpoints of the original transaction, as this handle
    /// carries them.
    pub closed spec fn spec_outpoints(&self) -> Seq<OutPoint> {
        self.outpoints@
    }

    /// The previous-output data of each input, as this handle carries
    /// it.
    pub closed spec fn spec_input_utxos(&self) -> Seq<InputUtxo> {
        self.input_utxos@
    }

    /// The outputs of the original transaction, as this handle carries
    /// them.
    pub closed spec fn spec_outputs(&self) -> Seq<TxOut> {
        self.outputs@
    }

    /// Parse a raw request into the initial pipeline state.  This is
    /// structural, protocol-level validation only: the body's base64
    /// must decode, the decoded bytes must be a PSBT whose outputs stay
    /// in the money range, the BIP78 parameters must be well-formed,
    /// and the transaction the accepted proposal holds must be the one
    /// this crate modeled from the same body; no business-logic check
    /// happens here.
    pub fn from_request<H: payjoin::receive::Headers>(
        body: Vec<u8>,
        query: String,
        headers: H,
    ) -> (r: Result<UncheckedProposal, PayjoinError>)
        ensures
            r matches Ok(p) ==> !p.is_consumed() && p.spec_outputs() == bridge::pdk_unchecked_outputs(
                p.spec_pdk(),
            ),
            r matches Err(e) ==> e == PayjoinError::RequestMalformed,
            bridge::base64_decoding(body@) is None ==> r == Err::<UncheckedProposal, PayjoinError>(
                PayjoinError::RequestMalformed,
            ),
            (bridge::base64_decoding(body@) matches Some(raw) && !bridge::psbt_parses(raw)) ==> r
                == Err::<UncheckedProposal, PayjoinError>(PayjoinError::RequestMalformed),
    {
        let raw = match bridge::decode_base64(body.as_slice()) {
            Some(raw) => raw,
            None => {
                return Err(PayjoinError::RequestMalformed);
            },
        };
        let psbt = match bridge::parse_psbt(raw.as_slice()) {
            Some(psbt) => psbt,
            None => {
                return Err(PayjoinError::RequestMalformed);
            },
        };
        let inner = match bridge::parse_request(body.as_slice(), query.as_str(), headers) {
            Ok(inner) => inner,
            Err(e) => {
                return Err(e);
            },
        };
        let tx = bridge::original_transaction(&inner);
        let modeled = bridge::psbt_extracted_tx(&psbt);
        if !crate::types::bytes_eq(tx.serialize().as_slice(), modeled.serialize().as_slice()) {
            return Err(PayjoinError::RequestMalformed);
        }
        let input_utxos = bridge::psbt_input_utxos(&psbt);
        let outpoints = bridge::tx_outpoints(&tx);
        let outputs = tx.into_outputs();
        let mut values: Vec<u64> = Vec::new();
        let mut i: usize = 0;
        while i < outputs.len()
            invariant
                0 <= i <= outputs@.len(),
            decreases outputs@.len() - i,
        {
            if outputs[i].value > MAX_MONEY_SATS {
                return Err(PayjoinError::RequestMalformed);
            }
            values.push(outputs[i].value);
            i += 1;
        }
        let first_input_ok = if input_utxos.len() == 0 {
            true
        } else {
            check_input_weight_accounted(&input_utxos[0])
        };
        let fee_params_ok = certify_fee_params(query.as_str().as_bytes(), &values);
        let guard = FeeGuard { first_input_ok, fee_params_ok };
        Ok(UncheckedProposal { inner: Some(inner), input_utxos, outpoints, outputs, guard })
    }

    /// The sender's original transaction, read-only, for the caller to
    /// schedule a delayed defensive broadcast; its modeled outputs are
    /// exactly the proposal's named outputs, which ingestion tied to
    /// this handle's own.
    pub fn get_transaction_to_schedule_broadcast(&self) -> (r: Result<
        RawTransaction,
        PayjoinError,
    >)
        ensures
            r is Ok <==> !self.is_consumed(),
            r matches Ok(tx) ==> tx.spec_outputs() == bridge::pdk_unchecked_outputs(
                self.spec_pdk(),
            ),
            r matches Err(e) ==> e == PayjoinError::IllegalReuse,
    {
        match &self.inner {
            Some(p) => Ok(bridge::original_transaction(p)),
            None => Err(PayjoinError::IllegalReuse),
        }
    }

    /// Consume the handle after proving the original transaction is
    /// broadcastable: the mempool-acceptance predicate is asked about
    /// the serialized transaction, and only a positive answer yields
    /// the next stage.  For non-interactive receivers.
    pub fn check_can_broadcast<C: CanBroadcast>(&mut self, can_broadcast: &C) -> (r: Result<
        MaybeInputsOwned,
        PayjoinError,
    >)
        ensures
            (r matches Err(e) && e == PayjoinError::IllegalReuse) <==> old(self).is_consumed(),
            final(self).is_consumed(),
            r matches Ok(next) ==> !next.is_consumed() && next.spec_outpoints() == old(
                self,
            ).spec_outpoints() && next.spec_outputs() == old(self).spec_outputs()
                && next.spec_input_utxos() == old(self).spec_input_utxos(),
            r matches Err(e) ==> (e == PayjoinError::IllegalReuse
                || e == PayjoinError::ValidationRejected || e == PayjoinError::CallbackFailed),
    {
        let inner = match self.inner.take() {
            Some(p) => p,
            None => {
                return Err(PayjoinError::IllegalReuse);
            },
        };
        let tx = bridge::original_transaction(&inner);
        let answer = can_broadcast.test_mempool_accept(&tx.serialize());
        let decision = decide_broadcast_answer(answer);
        match decision {
            Ok(()) => Ok(
                MaybeInputsOwned {
                    inner: Some(bridge::advance_unchecked(inner)),
                    input_utxos: take_vec(&mut self.input_utxos),
                    outpoints: take_vec(&mut self.outpoints),
                    outputs: take_vec(&mut self.outputs),
                    guard: self.guard,
                },
            ),
            Err(e) => {
                proof {
                    match answer {
                        Ok(b) => {
                            assert(b == false);
                            assert(answer == Ok::<bool, PayjoinError>(false));
                        },
                        Err(_) => {},
                    }
                }
                Err(e)
            },
        }
    }

    /// Consume the handle without a broadcast check, for receivers
    /// where a human approves each payment.
    pub fn assume_interactive_receiver(&mut self) -> (r: Result<MaybeInputsOwned, PayjoinError>)
        ensures
            (r matches Err(e) && e == PayjoinError::IllegalReuse) <==> old(self).is_consumed(),
            final(self).is_consumed(),
            r is Ok <==> !old(self).is_consumed(),
            r matches Ok(next) ==> !next.is_consumed() && next.spec_outpoints() == old(
                self,
            ).spec_outpoints() && next.spec_outputs() == old(self).spec_outputs()
                && next.spec_input_utxos() == old(self).spec_input_utxos(),
    {
        let inner = match self.inner.take() {
            Some(p) => p,
            None => {
                return Err(PayjoinError::IllegalReuse);
            },
        };
        Ok(
            MaybeInputsOwned {
                inner: Some(bridge::advance_unchecked(inner)),
                input_utxos: take_vec(&mut self.input_utxos),
                outpoints: take_vec(&mut self.outpoints),
                outputs: take_vec(&mut self.outputs),
                guard: self.guard,
            },
        )
    }
}

impl MaybeInputsOwned {
    /// Whether a consuming call already emptied this handle.
    pub closed spec fn is_consumed(&self) -> bool {
        self.inner is None
    }

    /// The input outpoints this handle carries.
    pub closed spec fn spec_outpoints(&self) -> Seq<OutPoint> {
        self.outpoints@
    }

    /// The previous-output data of each input, as this handle carries
    /// it.
    pub closed spec fn spec_input_utxos(&self) -> Seq<InputUtxo> {
        self.input_utxos@
    }

    /// The outputs this handle carries.
    pub closed spec fn spec_outputs(&self) -> Seq<TxOut> {
        self.outputs@
    }

    /// Consume the handle after asking the ownership predicate about
    /// every input's previous output script: a sender must not trick
    /// the receiver into spending its own coins.  An input whose
    /// previous output cannot be resolved rejects the proposal before
    /// any predicate is asked; the decision over the answers is
    /// `decide_screening_answers`.
    pub fn check_inputs_not_owned<P: IsScriptOwned>(&mut self, is_owned: &P) -> (r: Result<
        MaybeMixedInputScripts,
        PayjoinError,
    >)
        ensures
            (r matches Err(e) && e == PayjoinError::IllegalReuse) <==> old(self).is_consumed(),
            final(self).is_consumed(),
            r matches Ok(next) ==> !next.is_consumed() && next.spec_outpoints() == old(
                self,
            ).spec_outpoints() && next.spec_outputs() == old(self).spec_outputs(),
            r matches Err(e) ==> (e == PayjoinError::IllegalReuse
                || e == PayjoinError::ValidationRejected || e == PayjoinError::CallbackFailed),
            r is Ok ==> forall|i: int|
                0 <= i < old(self).spec_input_utxos().len() ==> spec_prev_script(
                    #[trigger] old(self).spec_input_utxos()[i],
                ) is Some,
            (!old(self).is_consumed() && exists|i: int|
                0 <= i < old(self).spec_input_utxos().len() && spec_prev_script(
                    #[trigger] old(self).spec_input_utxos()[i],
                ) is None) ==> (r matches Err(e) && e == PayjoinError::ValidationRejected),
    {
        let inner = match self.inner.take() {
            Some(p) => p,
            None => {
                return Err(PayjoinError::IllegalReuse);
            },
        };
        let mut i: usize = 0;
        while i < self.input_utxos.len()
            invariant
                0 <= i <= self.input_utxos@.len(),
                !old(self).is_consumed(),
                self.is_consumed(),
                self.input_utxos@ == old(self).input_utxos@,
                forall|k: int|
                    0 <= k < i ==> spec_prev_script(#[trigger] self.input_utxos@[k]) is Some,
            decreases self.input_utxos@.len() - i,
        {
            if resolve_prev_script(&self.input_utxos[i]).is_none() {
                return Err(PayjoinError::ValidationRejected);
            }
            i += 1;
        }
        let mut answers: Vec<Result<bool, PayjoinError>> = Vec::new();
        let mut j: usize = 0;
        while j < self.input_utxos.len()
            invariant
                0 <= j <= self.input_utxos@.len(),
                !old(self).is_consumed(),
                self.is_consumed(),
                self.input_utxos@ == old(self).input_utxos@,
                forall|k: int|
                    0 <= k < self.input_utxos@.len() ==> spec_prev_script(
                        #[trigger] self.input_utxos@[k],
                    ) is Some,
            decreases self.input_utxos@.len() - j,
        {
            match resolve_prev_script(&self.input_utxos[j]) {
                Some(script) => answers.push(is_owned.is_owned(script)),
                None => {
                    return Err(PayjoinError::ValidationRejected);
                },
            }
            j += 1;
        }
        match decide_screening_answers(&answers) {
            Ok(()) => match bridge::advance_inputs_owned(inner) {
                Ok(next) => Ok(
                    MaybeMixedInputScripts {
                        inner: Some(next),
                        outpoints: take_vec(&mut self.outpoints),
                        outputs: take_vec(&mut self.outputs),
                        guard: self.guard,
                    },
                ),
                Err(e) => Err(e),
            },
            Err(e) => Err(e),
        }
    }
}

impl MaybeMixedInputScripts {
    /// Whether a consuming call already emptied this handle.
    pub closed spec fn is_consumed(&self) -> bool {
        self.inner is None
    }

    /// The input outpoints this handle carries.
    pub closed spec fn spec_outpoints(&self) -> Seq<OutPoint> {
        self.outpoints@
    }

    /// The classification of each input the proposal holds, as the
    /// mixed-scripts check computes it.
    pub closed spec fn spec_input_kinds(&self) -> Seq<Option<u8>> {
        bridge::mixed_input_kinds(self.inner.unwrap())
    }

    /// The outputs this handle carries.
    pub closed spec fn spec_outputs(&self) -> Seq<TxOut> {
        self.outputs@
    }

    /// Consume the handle after checking that all inputs spend the same
    /// script type: mixed input types are a fingerprinting signal for
    /// chain surveillance.  Purely structural; no predicate is asked:
    /// on a live handle the check passes exactly when every input the
    /// proposal holds classifies and all classifications agree.
    pub fn check_no_mixed_input_scripts(&mut self) -> (r: Result<MaybeInputsSeen, PayjoinError>)
        ensures
            (r matches Err(e) && e == PayjoinError::IllegalReuse) <==> old(self).is_consumed(),
            final(self).is_consumed(),
            !old(self).is_consumed() ==> (r is Ok <==> ((forall|i: int|
                0 <= i < old(self).spec_input_kinds().len() ==> (#[trigger] old(
                    self,
                ).spec_input_kinds()[i]) is Some) && (forall|i: int|
                0 <= i < old(self).spec_input_kinds().len() ==> (#[trigger] old(
                    self,
                ).spec_input_kinds()[i]) == old(self).spec_input_kinds()[0]))),
            r matches Ok(next) ==> !next.is_consumed() && next.spec_outpoints() == old(
                self,
            ).spec_outpoints() && next.spec_outputs() == old(self).spec_outputs(),
            r matches Err(e) ==> (e == PayjoinError::IllegalReuse
                || e == PayjoinError::ValidationRejected),
    {
        let inner = match self.inner.take() {
            Some(p) => p,
            None => {
                return Err(PayjoinError::IllegalReuse);
            },
        };
        match bridge::check_no_mixed(inner) {
            Ok(next) => Ok(
                MaybeInputsSeen {
                    inner: Some(next),
                    outpoints: take_vec(&mut self.outpoints),
                    outputs: take_vec(&mut self.outputs),
                    guard: self.guard,
                },
            ),
            Err(e) => Err(e),
        }
    }
}

impl MaybeInputsSeen {
    /// Whether a consuming call already emptied this handle.
    pub closed spec fn is_consumed(&self) -> bool {
        self.inner is None
    }

    /// The input outpoints this handle carries.
    pub closed spec fn spec_outpoints(&self) -> Seq<OutPoint> {
        self.outpoints@
    }

    /// The outputs this handle carries.
    pub closed spec fn spec_outputs(&self) -> Seq<TxOut> {
        self.outputs@
    }

    /// Consume the handle after asking the seen-before predicate about
    /// every input outpoint; any outpoint seen before rejects the
    /// proposal, blocking reentrant-payjoin and probing attacks.  The
    /// decision over the answers is `decide_screening_answers`.
    pub fn check_no_inputs_seen_before<K: IsOutputKnown>(&mut self, is_known: &K) -> (r: Result<
        OutputsUnknown,
        PayjoinError,
    >)
        ensures
            (r matches Err(e) && e == PayjoinError::IllegalReuse) <==> old(self).is_consumed(),
            final(self).is_consumed(),
            r matches Ok(next) ==> !next.is_consumed() && next.spec_outputs() == old(
                self,
            ).spec_outputs(),
            r matches Err(e) ==> (e == PayjoinError::IllegalReuse
                || e == PayjoinError::ValidationRejected || e == PayjoinError::CallbackFailed),
    {
        let inner = match self.inner.take() {
            Some(p) => p,
            None => {
                return Err(PayjoinError::IllegalReuse);
            },
        };
        let mut answers: Vec<Result<bool, PayjoinError>> = Vec::new();
        let mut i: usize = 0;
        while i < self.outpoints.len()
            invariant
                0 <= i <= self.outpoints@.len(),
            decreases self.outpoints@.len() - i,
        {
            answers.push(is_known.is_known(&self.outpoints[i]));
            i += 1;
        }
        match decide_screening_answers(&answers) {
            Ok(()) => Ok(
                OutputsUnknown {
                    inner: Some(bridge::advance_inputs_seen(inner)),
                    outputs: take_vec(&mut self.outputs),
                    guard: self.guard,
                },
            ),
            Err(e) => Err(e),
        }
    }
}

impl OutputsUnknown {
    /// Whether a consuming call already emptied this handle.
    pub closed spec fn is_consumed(&self) -> bool {
        self.inner is None
    }

    /// The outputs this handle carries.
    pub closed spec fn spec_outputs(&self) -> Seq<TxOut> {
        self.outputs@
    }

    /// Consume the handle after asking the ownership predicate about
    /// every output script; the proposal must pay the receiver at least
    /// once, else it is rejected.  The decision over the answers is
    /// `decide_receiver_outputs`.
    pub fn identify_receiver_outputs<P: IsScriptOwned>(&mut self, is_receiver_output: &P) -> (r:
        Result<PayjoinProposal, PayjoinError>)
        ensures
            (r matches Err(e) && e == PayjoinError::IllegalReuse) <==> old(self).is_consumed(),
            final(self).is_consumed(),
            r matches Ok(next) ==> !next.is_consumed() && !next.fee_is_applied(),
            r matches Err(e) ==> (e == PayjoinError::IllegalReuse
                || e == PayjoinError::ValidationRejected || e == PayjoinError::CallbackFailed),
    {
        let inner = match self.inner.take() {
            Some(p) => p,
            None => {
                return Err(PayjoinError::IllegalReuse);
            },
        };
        let mut answers: Vec<Result<bool, PayjoinError>> = Vec::new();
        let mut i: usize = 0;
        while i < self.outputs.len()
            invariant
                0 <= i <= self.outputs@.len(),
                answers@.len() == i,
            decreases self.outputs@.len() - i,
        {
            answers.push(is_receiver_output.is_owned(&self.outputs[i].script_pubkey));
            i += 1;
        }
        match decide_receiver_outputs(&answers) {
            Ok(()) => {
                let mut owned: Vec<ScriptBuf> = Vec::new();
                let mut j: usize = 0;
                while j < self.outputs.len()
                    invariant
                        0 <= j <= self.outputs@.len(),
                        answers@.len() == self.outputs@.len(),
                    decreases self.outputs@.len() - j,
                {
                    let is_yes = match answers[j] {
                        Ok(true) => true,
                        _ => false,
                    };
                    if is_yes {
                        owned.push(
                            ScriptBuf { bytes: copy_bytes(&self.outputs[j].script_pubkey.bytes) },
                        );
                    }
                    j += 1;
                }
                match bridge::identify_outputs(inner, &owned) {
                    Ok(next) => Ok(
                        PayjoinProposal {
                            inner: Some(next),
                            fee_applied: false,
                            guard: self.guard,
                            credit_left: MAX_MONEY_SATS,
                        },
                    ),
                    Err(e) => Err(e),
                }
            },
            Err(e) => Err(e),
        }
    }
}

impl PayjoinProposal {
    /// Whether `prepare_psbt` already emptied this handle.
    pub closed spec fn is_consumed(&self) -> bool {
        self.inner is None
    }

    /// Whether the fee barrier has fallen: after `apply_fee`, no input
    /// or output may be added or substituted.
    pub closed spec fn fee_is_applied(&self) -> bool {
        self.fee_applied
    }

    /// Whether the original first input's weight is accounted, as the
    /// ingestion screen found.
    pub closed spec fn weight_guard(&self) -> bool {
        self.guard.first_input_ok
    }

    /// Whether the sender's fee parameters were certified harmless, as
    /// the ingestion screen found.
    pub closed spec fn params_guard(&self) -> bool {
        self.guard.fee_params_ok
    }

    /// How much contributed value the builder will still accept; starts
    /// at the money range and shrinks by each contribution, keeping
    /// every output value within 64 bits.
    pub closed spec fn spec_credit_left(&self) -> u64 {
        self.credit_left
    }

    /// The proposal this handle holds.
    pub closed spec fn spec_pdk(&self) -> payjoin::receive::PayjoinProposal {
        self.inner.unwrap()
    }

    /// Whether selecting a candidate of `k` satoshis would leave this
    /// proposal free of the unnecessary-input patterns.
    pub open spec fn spec_candidate_avoids(&self, k: u64) -> bool {
        bridge::uih_avoids(
            bridge::pdk_min_output_sats(self.spec_pdk()),
            bridge::pdk_min_input_sats(self.spec_pdk()),
            bridge::pdk_prior_payment_sats(self.spec_pdk()),
            k,
        )
    }

    /// Read the negotiated output-substitution flag: on a live handle
    /// the answer is the flag the proposal carries, so repeated reads
    /// agree.
    pub fn is_output_substitution_disabled(&self) -> (r: Result<bool, PayjoinError>)
        ensures
            r is Ok <==> !self.is_consumed(),
            r matches Ok(b) ==> b == bridge::pdk_substitution_disabled(self.spec_pdk()),
            r matches Err(e) ==> e == PayjoinError::IllegalReuse,
    {
        match &self.inner {
            Some(p) => Ok(bridge::output_substitution_disabled(p)),
            None => Err(PayjoinError::IllegalReuse),
        }
    }

    /// Add a receiver-owned input with its witness-context output.
    /// Refused once the fee barrier has fallen, and refused as
    /// malformed where the contribution could derail the fee step: a
    /// value beyond the remaining credit, or a script whose spending
    /// weight the fee table cannot account for.
    pub fn contribute_witness_input(&mut self, txout: TxOut, outpoint: OutPoint) -> (r: Result<
        (),
        PayjoinError,
    >)
        requires
            is_txid_chars(outpoint.txid@),
        ensures
            (r matches Err(e) && e == PayjoinError::IllegalReuse) <==> old(self).is_consumed(),
            !old(self).is_consumed() && old(self).fee_is_applied() ==> (r matches Err(e) && e
                == PayjoinError::RequestMalformed),
            !old(self).is_consumed() && !old(self).fee_is_applied() && txout.value <= old(
                self,
            ).spec_credit_left() && spec_contributed_script_accounted(txout.script_pubkey.bytes@)
                ==> r is Ok,
            final(self).is_consumed() == old(self).is_consumed(),
            final(self).fee_is_applied() == old(self).fee_is_applied(),
            r is Ok ==> bridge::pdk_input_outpoints(final(self).spec_pdk())
                == bridge::pdk_input_outpoints(old(self).spec_pdk()).insert(
                (outpoint.txid@, outpoint.vout),
            ),
            r is Ok ==> bridge::pdk_receiver_script(final(self).spec_pdk())
                == bridge::pdk_receiver_script(old(self).spec_pdk()),
            r matches Err(e) ==> (e == PayjoinError::IllegalReuse
                || e == PayjoinError::RequestMalformed),
    {
        if self.inner.is_none() {
            return Err(PayjoinError::IllegalReuse);
        }
        if self.fee_applied {
            return Err(PayjoinError::RequestMalformed);
        }
        if txout.value > self.credit_left {
            return Err(PayjoinError::RequestMalformed);
        }
        if !check_contributed_script(txout.script_pubkey.bytes.as_slice()) {
            return Err(PayjoinError::RequestMalformed);
        }
        bridge::contribute_witness(self, &txout, &outpoint);
        self.credit_left = self.credit_left - txout.value;
        Ok(())
    }

    /// Add a receiver-owned input with its full previous transaction,
    /// for non-segwit verification.  The outpoint must name one of that
    /// transaction's outputs.  Refused once the fee barrier has fallen,
    /// and refused as malformed where the contribution could derail the
    /// fee step: an outpoint naming no output, a value beyond the
    /// remaining credit, or a script whose spending weight the fee
    /// table cannot account for.
    pub fn contribute_non_witness_input(&mut self, tx: RawTransaction, outpoint: OutPoint) -> (r:
        Result<(), PayjoinError>)
        requires
            is_txid_chars(outpoint.txid@),
        ensures
            (r matches Err(e) && e == PayjoinError::IllegalReuse) <==> old(self).is_consumed(),
            !old(self).is_consumed() && old(self).fee_is_applied() ==> (r matches Err(e) && e
                == PayjoinError::RequestMalformed),
            !old(self).is_consumed() && !old(self).fee_is_applied() && (outpoint.vout as int)
                < tx.spec_outputs().len() && tx.spec_outputs()[outpoint.vout as int].value <= old(
                self,
            ).spec_credit_left() && spec_contributed_script_accounted(
                tx.spec_outputs()[outpoint.vout as int].script_pubkey.bytes@,
            ) ==> r is Ok,
            final(self).is_consumed() == old(self).is_consumed(),
            final(self).fee_is_applied() == old(self).fee_is_applied(),
            r is Ok ==> bridge::pdk_input_outpoints(final(self).spec_pdk())
                == bridge::pdk_input_outpoints(old(self).spec_pdk()).insert(
                (outpoint.txid@, outpoint.vout),
            ),
            r is Ok ==> bridge::pdk_receiver_script(final(self).spec_pdk())
                == bridge::pdk_receiver_script(old(self).spec_pdk()),
            r matches Err(e) ==> (e == PayjoinError::IllegalReuse
                || e == PayjoinError::RequestMalformed),
    {
        if self.inner.is_none() {
            return Err(PayjoinError::IllegalReuse);
        }
        if self.fee_applied {
            return Err(PayjoinError::RequestMalformed);
        }
        let value = match tx.output(outpoint.vout as usize) {
            Some(o) => {
                if !check_contributed_script(o.script_pubkey.bytes.as_slice()) {
                    return Err(PayjoinError::RequestMalformed);
                }
                o.value
            },
            None => {
                return Err(PayjoinError::RequestMalformed);
            },
        };
        if value > self.credit_left {
            return Err(PayjoinError::RequestMalformed);
        }
        bridge::contribute_non_witness(self, &tx, &outpoint);
        self.credit_left = self.credit_left - value;
        Ok(())
    }

    /// Replace the receiver-identified output's address with a fresh
    /// one, avoiding address reuse.  Refused once the fee barrier has
    /// fallen.
    pub fn substitute_output_address(&mut self, substitute_address: &BtcAddress) -> (r: Result<
        (),
        PayjoinError,
    >)
        requires
            substitute_address.wf(),
        ensures
            (r matches Err(e) && e == PayjoinError::IllegalReuse) <==> old(self).is_consumed(),
            !old(self).is_consumed() && old(self).fee_is_applied() ==> (r matches Err(e) && e
                == PayjoinError::RequestMalformed),
            !old(self).is_consumed() && !old(self).fee_is_applied() ==> r is Ok,
            final(self).is_consumed() == old(self).is_consumed(),
            final(self).fee_is_applied() == old(self).fee_is_applied(),
            r is Ok ==> bridge::pdk_receiver_script(final(self).spec_pdk())
                == bridge::address_script(substitute_address.address@),
            r is Ok ==> bridge::pdk_input_outpoints(final(self).spec_pdk())
                == bridge::pdk_input_outpoints(old(self).spec_pdk()),
            r matches Err(e) ==> (e == PayjoinError::IllegalReuse
                || e == PayjoinError::RequestMalformed),
    {
        if self.inner.is_none() {
            return Err(PayjoinError::IllegalReuse);
        }
        if self.fee_applied {
            return Err(PayjoinError::RequestMalformed);
        }
        bridge::substitute_address(self, substitute_address);
        Ok(())
    }

    /// Select a receiver input from the candidates such that the
    /// resulting transaction avoids the unnecessary-input heuristics;
    /// an accepted candidate is returned and nothing is altered, so a
    /// failed selection leaves the proposal exactly as it was.
    pub fn try_preserving_privacy(&self, candidate_inputs: HashMap<u64, OutPoint>) -> (r: Result<
        OutPoint,
        PayjoinError,
    >)
        requires
            forall|k: u64| #[trigger]
                candidate_inputs@.dom().contains(k) ==> is_txid_chars(candidate_inputs@[k].txid@)
                    && k <= MAX_MONEY_SATS,
        ensures
            (r matches Err(e) && e == PayjoinError::IllegalReuse) <==> self.is_consumed(),
            !self.is_consumed() && r is Err ==> r == Err::<OutPoint, PayjoinError>(
                PayjoinError::SelectionExhausted,
            ),
            !self.is_consumed() ==> (r is Ok <==> (bridge::pdk_output_count(self.spec_pdk()) == 2
                && exists|k: u64|
                #[trigger] candidate_inputs@.dom().contains(k) && self.spec_candidate_avoids(k))),
            r matches Ok(o) ==> exists|k: u64|
                #[trigger] candidate_inputs@.dom().contains(k) && candidate_inputs@[k].txid@
                    == o.txid@ && candidate_inputs@[k].vout == o.vout
                    && self.spec_candidate_avoids(k),
            r matches Err(e) ==> (e == PayjoinError::IllegalReuse
                || e == PayjoinError::SelectionExhausted),
    {
        if self.inner.is_none() {
            return Err(PayjoinError::IllegalReuse);
        }
        bridge::select_candidate(self, &candidate_inputs)
    }

    /// Compute the receiver's fee contribution, adjust the designated
    /// output and return the unsigned proposal PSBT for signing.  This
    /// is the fee barrier: from here on every contribute or substitute
    /// call is refused.  Where an ingestion screen could not certify the
    /// request for fee accounting, or the given rate is beyond the
    /// accepted bound, the request is reported malformed instead.  The
    /// parameter screen is conservative: it models no percent- or
    /// plus-encoding, so a query using either is never certified and
    /// the fee step refuses it here.
    pub fn apply_fee(&mut self, min_feerate_sat_per_vb: Option<u64>) -> (r: Result<
        PartiallySignedTransaction,
        PayjoinError,
    >)
        ensures
            (r matches Err(e) && e == PayjoinError::IllegalReuse) <==> old(self).is_consumed(),
            !old(self).is_consumed() && old(self).fee_is_applied() ==> (r matches Err(e) && e
                == PayjoinError::RequestMalformed),
            final(self).is_consumed() == old(self).is_consumed(),
            !old(self).is_consumed() ==> final(self).fee_is_applied(),
            old(self).fee_is_applied() ==> final(self).fee_is_applied(),
            (!old(self).is_consumed() && !old(self).fee_is_applied() && old(self).weight_guard()
                && old(self).params_guard() && (min_feerate_sat_per_vb matches Some(f) ==> f
                <= MAX_FEERATE_SAT_PER_VB)) ==> (r is Ok <==> bridge::pdk_fee_accountable(
                old(self).spec_pdk(),
            )),
            r matches Ok(x) ==> bridge::psbt_encoding(x.spec_psbt()) == bridge::pdk_fee_psbt(
                old(self).spec_pdk(),
                bridge::spec_rate_floor(min_feerate_sat_per_vb),
            ),
            r matches Err(e) ==> (e == PayjoinError::IllegalReuse
                || e == PayjoinError::RequestMalformed),
    {
        if self.inner.is_none() {
            return Err(PayjoinError::IllegalReuse);
        }
        if self.fee_applied {
            return Err(PayjoinError::RequestMalformed);
        }
        self.fee_applied = true;
        if !self.guard.first_input_ok || !self.guard.fee_params_ok {
            return Err(PayjoinError::RequestMalformed);
        }
        match min_feerate_sat_per_vb {
            Some(f) if f > MAX_FEERATE_SAT_PER_VB => {
                return Err(PayjoinError::RequestMalformed);
            },
            _ => {},
        }
        bridge::apply_fee(self, min_feerate_sat_per_vb)
    }

    /// Merge the caller's signed PSBT back in and emit the final
    /// proposal for the sender.  This is the single consuming call that
    /// ends the builder's mutable phase.
    pub fn prepare_psbt(&mut self, processed_psbt: &PartiallySignedTransaction) -> (r: Result<
        PartiallySignedTransaction,
        PayjoinError,
    >)
        ensures
            final(self).is_consumed(),
            r is Ok <==> !old(self).is_consumed(),
            r matches Err(e) ==> e == PayjoinError::IllegalReuse,
    {
        match self.inner.take() {
            Some(p) => bridge::prepare_psbt(p, processed_psbt),
            None => Err(PayjoinError::IllegalReuse),
        }
    }
}

} // verus!
