//! Screens that keep the fee step total.
//!
//! `payjoin`'s fee accounting aborts on three classes of remote input:
//! a first input whose weight its table does not carry, fee parameters
//! naming an output that does not exist or cannot pay the contribution,
//! and value sums outside the 64-bit range.  The pipeline screens all
//! three here, over plain data, before any of them can reach the call.

use vstd::prelude::*;

use crate::types::{bytes_eq, spec_prev_script, InputUtxo};

verus! {

/// The largest number of satoshis any consensus-valid output can carry.
pub const MAX_MONEY_SATS: u64 = 2_100_000_000_000_000;

/// The largest fee rate, in satoshis per virtual byte, the fee step
/// accepts; far above any real rate, and small enough that a rate times
/// any accounted input weight stays within 64 bits.
pub const MAX_FEERATE_SAT_PER_VB: u64 = 0xFFFF_FFFF;

/// A pay-to-pubkey-hash locking script, byte for byte.
pub open spec fn spec_is_p2pkh(s: Seq<u8>) -> bool {
    s.len() == 25 && s[0] == 0x76 && s[1] == 0xa9 && s[2] == 0x14 && s[23] == 0x88 && s[24]
        == 0xac
}

/// A pay-to-script-hash locking script, byte for byte.
pub open spec fn spec_is_p2sh(s: Seq<u8>) -> bool {
    s.len() == 23 && s[0] == 0xa9 && s[1] == 0x14 && s[22] == 0x87
}

/// A pay-to-pubkey locking script: one pushed key, then a checksig.
pub open spec fn spec_is_p2pk(s: Seq<u8>) -> bool {
    (s.len() == 35 && s[0] == 33 && s[34] == 0xac) || (s.len() == 67 && s[0] == 65 && s[66]
        == 0xac)
}

/// A witness program: a version opcode (zero, or one to sixteen)
/// followed by a single plain push of the whole remainder, two to forty
/// bytes of it.
pub open spec fn spec_is_witness_program(s: Seq<u8>) -> bool {
    4 <= s.len() <= 42 && (s[0] == 0x00 || (0x51 <= s[0] && s[0] <= 0x60)) && 2 <= s[1] <= 40
        && s[1] as int == s.len() - 2
}

/// A version-zero witness program with a 32-byte program: the one
/// witness form whose weight lookup aborts.
pub open spec fn spec_witness_weight_aborts(s: Seq<u8>) -> bool {
    spec_is_witness_program(s) && s[0] == 0x00 && s[1] == 32
}

/// The bytes pushed by the last instruction of a script, when the
/// script parses to the end and its last instruction is a plain push;
/// anything else (empty, a trailing operator, a push overrunning the
/// script) yields nothing, exactly as the instruction iterator the fee
/// step unpacks a script-sig with.
pub open spec fn spec_last_push(s: Seq<u8>) -> Option<Seq<u8>>
    decreases s.len(),
{
    if s.len() == 0 {
        None
    } else {
        let op = s[0];
        if op <= 75 {
            spec_last_push_step(s, 1, op as int)
        } else if op == 76 {
            if s.len() >= 2 {
                spec_last_push_step(s, 2, s[1] as int)
            } else {
                None
            }
        } else if op == 77 {
            if s.len() >= 3 {
                spec_last_push_step(s, 3, s[1] + 256 * s[2])
            } else {
                None
            }
        } else if op == 78 {
            if s.len() >= 5 {
                spec_last_push_step(s, 5, s[1] + 256 * s[2] + 65536 * s[3] + 16777216 * s[4])
            } else {
                None
            }
        } else {
            if s.len() == 1 {
                None
            } else {
                spec_last_push(s.subrange(1, s.len() as int))
            }
        }
    }
}

/// One push instruction: `header` length bytes, then `n` pushed bytes.
pub open spec fn spec_last_push_step(s: Seq<u8>, header: int, n: int) -> Option<Seq<u8>>
    decreases s.len(), 0nat,
{
    if header < 1 || n < 0 {
        None
    } else if header + n > s.len() {
        None
    } else if header + n == s.len() {
        Some(s.subrange(header, header + n))
    } else {
        spec_last_push(s.subrange(header + n, s.len() as int))
    }
}

fn last_push<'a>(s: &'a [u8]) -> (r: Option<&'a [u8]>)
    ensures
        r matches Some(b) ==> spec_last_push(s@) == Some(b@),
        r is None ==> spec_last_push(s@) is None,
    decreases s@.len(),
{
    if s.len() == 0 {
        assert(spec_last_push(s@) is None);
        return None;
    }
    let op = s[0];
    if op <= 75 {
        assert(spec_last_push(s@) == spec_last_push_step(s@, 1, op as int));
        last_push_step(s, 1, op as usize)
    } else if op == 76 {
        if s.len() >= 2 {
            last_push_step(s, 2, s[1] as usize)
        } else {
            None
        }
    } else if op == 77 {
        if s.len() >= 3 {
            last_push_step(s, 3, s[1] as usize + 256 * (s[2] as usize))
        } else {
            None
        }
    } else if op == 78 {
        if s.len() >= 5 {
            let n: u64 = s[1] as u64 + 256 * (s[2] as u64) + 65536 * (s[3] as u64) + 16777216 * (
            s[4] as u64);
            if n > (s.len() - 5) as u64 {
                assert(spec_last_push(s@) is None);
                None
            } else {
                assert(spec_last_push(s@) == spec_last_push_step(s@, 5, n as int));
                last_push_step(s, 5, n as usize)
            }
        } else {
            assert(spec_last_push(s@) is None);
            None
        }
    } else {
        if s.len() == 1 {
            None
        } else {
            last_push(&s[1..s.len()])
        }
    }
}

fn last_push_step<'a>(s: &'a [u8], header: usize, n: usize) -> (r: Option<&'a [u8]>)
    requires
        1 <= header <= s@.len(),
        spec_last_push(s@) == spec_last_push_step(s@, header as int, n as int),
    ensures
        r matches Some(b) ==> spec_last_push(s@) == Some(b@),
        r is None ==> spec_last_push(s@) is None,
    decreases s@.len(), 1nat,
{
    if n > s.len() - header {
        None
    } else if n == s.len() - header {
        Some(&s[header..s.len()])
    } else {
        last_push(&s[header + n..s.len()])
    }
}

/// Whether a contributed output's locking script is one the fee table
/// can account for when it heads the input list: pay-to-pubkey and the
/// 32-byte version-zero witness form are the two template classes whose
/// weight lookup aborts; every other script either has a known weight
/// or makes the fee step report an error.
pub open spec fn spec_contributed_script_accounted(s: Seq<u8>) -> bool {
    !spec_is_p2pk(s) && !spec_witness_weight_aborts(s)
}

fn is_p2pkh(s: &[u8]) -> (r: bool)
    ensures
        r == spec_is_p2pkh(s@),
{
    s.len() == 25 && s[0] == 0x76 && s[1] == 0xa9 && s[2] == 0x14 && s[23] == 0x88 && s[24]
        == 0xac
}

fn is_p2sh(s: &[u8]) -> (r: bool)
    ensures
        r == spec_is_p2sh(s@),
{
    s.len() == 23 && s[0] == 0xa9 && s[1] == 0x14 && s[22] == 0x87
}

fn is_p2pk(s: &[u8]) -> (r: bool)
    ensures
        r == spec_is_p2pk(s@),
{
    (s.len() == 35 && s[0] == 33 && s[34] == 0xac) || (s.len() == 67 && s[0] == 65 && s[66]
        == 0xac)
}

fn is_witness_program(s: &[u8]) -> (r: bool)
    ensures
        r == spec_is_witness_program(s@),
{
    4 <= s.len() && s.len() <= 42 && (s[0] == 0x00 || (0x51 <= s[0] && s[0] <= 0x60)) && 2 <= s[1]
        && s[1] <= 40 && s[1] as usize == s.len() - 2
}

fn witness_weight_aborts(s: &[u8]) -> (r: bool)
    ensures
        r == spec_witness_weight_aborts(s@),
{
    is_witness_program(s) && s[0] == 0x00 && s[1] == 32
}

pub fn check_contributed_script(s: &[u8]) -> (r: bool)
    ensures
        r == spec_contributed_script_accounted(s@),
{
    !is_p2pk(s) && !witness_weight_aborts(s)
}

/// Whether the fee step's weight lookup cannot abort on this input: the
/// lookup aborts on a pay-to-pubkey or 32-byte version-zero witness
/// spend, and on a pay-to-script-hash spend whose finalized script-sig
/// ends in a pushed redeem script that is not itself a 20-byte
/// version-zero or 32-byte version-one witness program.  Every other
/// input yields a weight or a reported error.
pub open spec fn spec_input_weight_accounted(u: InputUtxo) -> bool {
    match spec_prev_script(u) {
        None => true,
        Some(s) => {
            if spec_is_p2pk(s) {
                false
            } else if spec_is_p2pkh(s) {
                true
            } else if spec_is_p2sh(s) {
                match u.final_script_sig {
                    None => true,
                    Some(sig) => match spec_last_push(sig@) {
                        None => true,
                        Some(redeem) => spec_is_witness_program(redeem)
                            && !spec_witness_weight_aborts(redeem),
                    },
                }
            } else if spec_is_witness_program(s) {
                !spec_witness_weight_aborts(s)
            } else {
                true
            }
        },
    }
}

/// Decide `spec_input_weight_accounted` at run time.
pub fn check_input_weight_accounted(u: &InputUtxo) -> (r: bool)
    ensures
        r == spec_input_weight_accounted(*u),
{
    let script = match crate::types::resolve_prev_script(u) {
        None => {
            return true;
        },
        Some(script) => script,
    };
    let s = script.bytes.as_slice();
    if is_p2pk(s) {
        false
    } else if is_p2pkh(s) {
        true
    } else if is_p2sh(s) {
        match &u.final_script_sig {
            None => true,
            Some(sig) => match last_push(sig.as_slice()) {
                None => true,
                Some(redeem) => is_witness_program(redeem) && !witness_weight_aborts(redeem),
            },
        }
    } else if is_witness_program(s) {
        !witness_weight_aborts(s)
    } else {
        true
    }
}

fn parse_u64_digits(s: &[u8]) -> (r: Option<u64>) {
    if s.len() == 0 {
        return None;
    }
    let mut value: u64 = 0;
    let mut i: usize = 0;
    while i < s.len()
        invariant
            0 <= i <= s@.len(),
        decreases s@.len() - i,
    {
        let b = s[i];
        if b < 0x30 || b > 0x39 {
            return None;
        }
        let digit = (b - 0x30) as u64;
        value = match value.checked_mul(10) {
            Some(v) => v,
            None => {
                return None;
            },
        };
        value = match value.checked_add(digit) {
            Some(v) => v,
            None => {
                return None;
            },
        };
        i += 1;
    }
    Some(value)
}

fn find_byte(s: &[u8], from: usize, byte: u8) -> (r: usize)
    requires
        from <= s@.len(),
    ensures
        from <= r <= s@.len(),
{
    let mut i: usize = from;
    while i < s.len()
        invariant
            from <= i <= s@.len(),
        decreases s@.len() - i,
    {
        if s[i] == byte {
            return i;
        }
        i += 1;
    }
    i
}

/// Certify that the query's BIP78 fee parameters cannot make the fee
/// step read or deduct outside the original outputs, and that any
/// minimum-feerate parameter is small enough for the fee product to
/// stay within 64 bits.
///
/// This follows the parameter parser the request was accepted with: the
/// query splits into `&`-separated pairs, each cut at its first `=`,
/// and the last occurrence of a name wins.  Conservatively, a query
/// using percent- or plus-encoding (which that parser would decode, and
/// this screen does not model) or carrying a fee parameter whose value
/// is not a plain decimal number is not certified.
pub fn certify_fee_params(q: &[u8], output_values: &Vec<u64>) -> (r: bool)
    ensures
        r ==> forall|i: int| 0 <= i < q@.len() ==> q@[i] != 0x25 && (#[trigger] q@[i]) != 0x2b,
{
    let mut i: usize = 0;
    while i < q.len()
        invariant
            0 <= i <= q@.len(),
            forall|j: int| 0 <= j < i ==> q@[j] != 0x25 && (#[trigger] q@[j]) != 0x2b,
        decreases q@.len() - i,
    {
        if q[i] == 0x25 || q[i] == 0x2b {
            return false;
        }
        i += 1;
    }
    let mut amount: Option<u64> = None;
    let mut index: Option<u64> = None;
    let mut start: usize = 0;
    while start < q.len()
        invariant
            0 <= start <= q@.len(),
        decreases q@.len() - start,
    {
        let end = find_byte(q, start, 0x26);
        let eq = find_byte(q, start, 0x3d);
        let key_end = if eq < end {
            eq
        } else {
            end
        };
        let key = &q[start..key_end];
        let value: &[u8] = if eq < end {
            &q[eq + 1..end]
        } else {
            &q[end..end]
        };
        if bytes_eq(key, "maxadditionalfeecontribution".as_bytes()) {
            match parse_u64_digits(value) {
                Some(a) => {
                    amount = Some(a);
                },
                None => {
                    return false;
                },
            }
        } else if bytes_eq(key, "additionalfeeoutputindex".as_bytes()) {
            match parse_u64_digits(value) {
                Some(n) => {
                    index = Some(n);
                },
                None => {
                    return false;
                },
            }
        } else if bytes_eq(key, "minfeerate".as_bytes()) {
            match parse_u64_digits(value) {
                Some(f) => {
                    if f > MAX_FEERATE_SAT_PER_VB {
                        return false;
                    }
                },
                None => {
                    return false;
                },
            }
        }
        if end >= q.len() {
            break;
        }
        start = end + 1;
    }
    match (amount, index) {
        (Some(a), Some(n)) => {
            if n >= output_values.len() as u64 {
                false
            } else {
                a <= output_values[n as usize]
            }
        },
        _ => true,
    }
}

} // verus!
