//! The ledger account's binary layout: tightly packed 40-byte entries, each a
//! 32-byte asset account identifier followed by a little-endian `u64`
//! obligation, with no header.

use vstd::prelude::*;

use crate::bytes::{copy_key, le_value, push_u64_le, read_u64_le};
use crate::error::FlashLoanError;

verus! {

/// Size in bytes of one ledger entry.
pub const ENTRY_SIZE: usize = 40;

/// One borrowed asset: the protocol-side account that funded it and the
/// balance it must hold again before the loan can be closed.
#[derive(Clone, Copy, Debug)]
pub struct LoanData {
    pub protocol_token_account: [u8; 32],
    pub balance: u64,
}

/// The 40 bytes of entry `i` of a ledger.
pub open spec fn record(ledger: Seq<u8>, i: int) -> Seq<u8> {
    ledger.subrange(i * 40, i * 40 + 40)
}

/// Whether `r` is the encoding of `e`.
pub open spec fn record_encodes(r: Seq<u8>, e: LoanData) -> bool {
    &&& r.len() == 40
    &&& r.subrange(0, 32) == e.protocol_token_account@
    &&& le_value(r.subrange(32, 40)) == e.balance as nat
}

/// Whether `ledger` is exactly the entries `entries`, in order.
pub open spec fn ledger_encodes(ledger: Seq<u8>, entries: Seq<LoanData>) -> bool {
    &&& ledger.len() == entries.len() * 40
    &&& forall|i: int| 0 <= i < entries.len() ==> record_encodes(#[trigger] record(ledger, i), entries[i])
}

/// Byte size of a ledger of `entry_count` entries.
pub fn ledger_size(entry_count: usize) -> (r: usize)
    requires
        entry_count * 40 <= usize::MAX,
    ensures
        r == entry_count * 40,
{
    ENTRY_SIZE * entry_count
}

/// Serialises `entries` into a ledger account's data.
pub fn encode_ledger(entries: &Vec<LoanData>) -> (r: Vec<u8>)
    requires
        entries@.len() * 40 <= usize::MAX,
    ensures
        ledger_encodes(r@, entries@),
{
    let mut out: Vec<u8> = Vec::new();
    let mut i: usize = 0;
    while i < entries.len()
        invariant
            i <= entries@.len(),
            entries@.len() * 40 <= usize::MAX,
            out@.len() == i * 40,
            forall|j: int| 0 <= j < i ==> record_encodes(#[trigger] record(out@, j), entries@[j]),
        decreases entries@.len() - i,
    {
        let e = entries[i];
        let ghost before = out@;
        let mut k: usize = 0;
        while k < 32
            invariant
                k <= 32,
                out@.len() == before.len() + k,
                out@.subrange(0, before.len() as int) == before,
                forall|m: int| 0 <= m < k ==> out@[before.len() + m] == e.protocol_token_account@[m],
            decreases 32 - k,
        {
            out.push(e.protocol_token_account[k]);
            proof {
                assert(out@.subrange(0, before.len() as int) =~= before);
            }
            k = k + 1;
        }
        let ghost keyed = out@;
        push_u64_le(&mut out, e.balance);
        proof {
            assert(out@.subrange(0, before.len() as int) =~= before) by {
                assert(out@.subrange(0, before.len() as int) =~= keyed.subrange(
                    0,
                    before.len() as int,
                ));
            }
            assert(record(out@, i as int).subrange(0, 32) =~= e.protocol_token_account@) by {
                assert forall|m: int| 0 <= m < 32 implies record(out@, i as int).subrange(0, 32)[m]
                    == e.protocol_token_account@[m] by {
                    assert(out@[before.len() + m] == keyed[before.len() + m]);
                }
            }
            assert(record(out@, i as int).subrange(32, 40) =~= out@.subrange(
                keyed.len() as int,
                keyed.len() + 8int,
            ));
            assert forall|j: int| 0 <= j < i implies record_encodes(
                #[trigger] record(out@, j),
                entries@[j],
            ) by {
                assert(record(out@, j) =~= record(before, j));
            }
        }
        i = i + 1;
    }
    out
}

/// Reads the entries of a ledger account's data; a size that is not a whole
/// number of entries is refused.
pub fn decode_ledger(ledger: &[u8]) -> (r: Result<Vec<LoanData>, FlashLoanError>)
    ensures
        ledger@.len() % 40 != 0 ==> r == Err::<Vec<LoanData>, FlashLoanError>(
            FlashLoanError::MalformedLedger,
        ),
        ledger@.len() % 40 == 0 ==> r is Ok && ledger_encodes(ledger@, r->Ok_0@),
{
    let len = ledger.len();
    if len % ENTRY_SIZE != 0 {
        return Err(FlashLoanError::MalformedLedger);
    }
    let count = len / ENTRY_SIZE;
    let mut entries: Vec<LoanData> = Vec::new();
    let mut i: usize = 0;
    while i < count
        invariant
            i <= count,
            count * 40 == ledger@.len(),
            len == ledger@.len(),
            entries@.len() == i,
            forall|j: int| 0 <= j < i ==> record_encodes(#[trigger] record(ledger@, j), entries@[j]),
        decreases count - i,
    {
        let base = i * ENTRY_SIZE;
        let key = copy_key(ledger, base);
        let balance = read_u64_le(ledger, base + 32);
        let e = LoanData { protocol_token_account: key, balance };
        proof {
            assert(record(ledger@, i as int).subrange(0, 32) =~= key@);
            assert(record(ledger@, i as int).subrange(32, 40) =~= ledger@.subrange(
                base + 32,
                base + 40,
            ));
        }
        entries.push(e);
        i = i + 1;
    }
    Ok(entries)
}

} // verus!
