use vstd::prelude::*;

use crate::error::PayjoinError;

verus! {

/// An opaque locking script: a byte sequence the pipeline never
/// interprets, compared only through caller-supplied predicates.
#[derive(Clone, Debug, PartialEq, Eq)]
pub struct ScriptBuf {
    pub bytes: Vec<u8>,
}

/// A reference to a prior transaction's output: the transaction id as
/// its usual 64-digit hexadecimal string, and the output index.
#[derive(Clone, Debug, PartialEq, Eq)]
pub struct OutPoint {
    pub txid: String,
    pub vout: u32,
}

/// An output descriptor: value in satoshis plus its locking script.
#[derive(Clone, Debug, PartialEq, Eq)]
pub struct TxOut {
    pub value: u64,
    pub script_pubkey: ScriptBuf,
}

pub open spec fn is_hex_char(c: char) -> bool {
    ('0' <= c && c <= '9') || ('a' <= c && c <= 'f')
}

/// A well-formed transaction id string: exactly 64 lower-case
/// hexadecimal digits.  Outpoints handed to the builder must satisfy
/// this, since anything else names no transaction.
pub open spec fn is_txid_chars(s: Seq<char>) -> bool {
    s.len() == 64 && forall|i: int| 0 <= i < s.len() ==> is_hex_char(#[trigger] s[i])
}

/// Decide `is_txid_chars` at run time, so that a caller can establish
/// the builder's outpoint precondition for a string it did not build
/// itself.
pub fn is_valid_txid(s: &str) -> (r: bool)
    ensures
        r == is_txid_chars(s@),
{
    broadcast use vstd::string::next_postcondition, vstd::string::axiom_spec_iter;

    let mut it = s.chars();
    let mut count: usize = 0;
    let ghost total = s@;
    loop
        invariant
            total == s@,
            vstd::std_specs::iter::IteratorSpec::remaining(&it) =~= total.skip(count as int),
            vstd::std_specs::iter::IteratorSpec::obeys_prophetic_iter_laws(&it),
            0 <= count <= total.len(),
            forall|j: int| 0 <= j < count ==> is_hex_char(#[trigger] total[j]),
        ensures
            count == total.len(),
            forall|j: int| 0 <= j < count ==> is_hex_char(#[trigger] total[j]),
        decreases total.len() - count,
    {
        let ghost prev_it = it;
        let ret = it.next();
        proof {
            assert(vstd::string::next_post(&prev_it, &it, ret));
            assert(vstd::std_specs::iter::IteratorSpec::obeys_prophetic_iter_laws(&prev_it));
        }
        match ret {
            None => {
                proof {
                    assert(total.skip(count as int).len() == 0);
                }
                break;
            },
            Some(c) => {
                let hex = ('0' <= c && c <= '9') || ('a' <= c && c <= 'f');
                proof {
                    assert(total.skip(count as int).len() > 0);
                    assert(c == total.skip(count as int)[0]);
                    assert(c == total[count as int]);
                }
                if !hex {
                    proof {
                        assert(!is_hex_char(total[count as int]));
                        assert(!is_txid_chars(total));
                    }
                    return false;
                }
                if count >= 64 {
                    proof {
                        assert(total.len() > 64);
                        assert(!is_txid_chars(total));
                    }
                    return false;
                }
                count += 1;
                proof {
                    assert(vstd::std_specs::iter::IteratorSpec::remaining(&it) =~= total.skip(
                        count as int,
                    ));
                }
            },
        }
    }
    count == 64
}

/// Mempool-acceptance port: asked whether the serialized transaction
/// would be accepted for broadcast.  Implemented by the embedding
/// application; any answer, and any failure, is possible.
pub trait CanBroadcast {
    fn test_mempool_accept(&self, tx: &Vec<u8>) -> Result<bool, PayjoinError>;
}

/// Script-ownership port: asked whether a locking script is
/// receiver-owned.  Reused for input ownership and for output
/// identification.
pub trait IsScriptOwned {
    fn is_owned(&self, script: &ScriptBuf) -> Result<bool, PayjoinError>;
}

/// Outpoint-seen port: asked whether an outpoint was previously
/// observed by the receiver.
pub trait IsOutputKnown {
    fn is_known(&self, outpoint: &OutPoint) -> Result<bool, PayjoinError>;
}

pub(crate) fn bytes_eq(a: &[u8], b: &[u8]) -> (r: bool)
    ensures
        r == (a@ == b@),
{
    if a.len() != b.len() {
        assert(a@.len() != b@.len());
        return false;
    }
    let mut i: usize = 0;
    while i < a.len()
        invariant
            0 <= i <= a@.len(),
            a@.len() == b@.len(),
            forall|j: int| 0 <= j < i ==> a@[j] == b@[j],
        decreases a@.len() - i,
    {
        if a[i] != b[i] {
            return false;
        }
        i += 1;
    }
    proof {
        assert(a@ =~= b@);
    }
    true
}

/// The previous-output data a PSBT carries for one input: the spent
/// output itself in witness form, or the previous transaction's output
/// scripts in legacy form, together with the spent output index.
pub struct InputUtxo {
    pub witness_script: Option<ScriptBuf>,
    pub prev_output_scripts: Option<Vec<ScriptBuf>>,
    pub prev_vout: u32,
    pub final_script_sig: Option<Vec<u8>>,
}

/// The script an input spends: the witness form wins; else the named
/// output of the previous transaction; else nothing is known.
pub open spec fn spec_prev_script(u: InputUtxo) -> Option<Seq<u8>> {
    match u.witness_script {
        Some(s) => Some(s.bytes@),
        None => match u.prev_output_scripts {
            Some(outs) => if u.prev_vout < outs@.len() {
                Some(outs@[u.prev_vout as int].bytes@)
            } else {
                None
            },
            None => None,
        },
    }
}

/// Resolve the script an input spends, as `spec_prev_script` says.
pub fn resolve_prev_script(u: &InputUtxo) -> (r: Option<&ScriptBuf>)
    ensures
        r matches Some(s) ==> spec_prev_script(*u) == Some(s.bytes@),
        r is None <==> spec_prev_script(*u) is None,
{
    match &u.witness_script {
        Some(s) => Some(s),
        None => match &u.prev_output_scripts {
            Some(outs) => {
                if (u.prev_vout as usize) < outs.len() {
                    Some(&outs[u.prev_vout as usize])
                } else {
                    None
                }
            },
            None => None,
        },
    }
}

/// Whether one of the given scripts has exactly the given bytes.
pub fn contains_script(scripts: &Vec<ScriptBuf>, bytes: &[u8]) -> (r: bool)
    ensures
        r == exists|i: int| 0 <= i < scripts@.len() && #[trigger] scripts@[i].bytes@ == bytes@,
{
    let mut i: usize = 0;
    while i < scripts.len()
        invariant
            0 <= i <= scripts@.len(),
            forall|j: int| 0 <= j < i ==> #[trigger] scripts@[j].bytes@ != bytes@,
        decreases scripts@.len() - i,
    {
        if bytes_eq(scripts[i].bytes.as_slice(), bytes) {
            return true;
        }
        i += 1;
    }
    false
}

} // verus!
