use vstd::prelude::*;

use crate::decoder::{decode_spec, keys_of, IxModel, PumpProgramIx, Pubkey};

verus! {

/// The payload of one program invocation inside a transaction.
#[derive(Clone, Debug, PartialEq, Eq)]
pub struct RawInstruction {
    pub data: Vec<u8>,
}

/// One transaction as the stream delivers it.
#[derive(Clone, Debug, PartialEq, Eq)]
pub struct TransactionUpdate {
    pub signature: Vec<u8>,
    pub account_keys: Vec<Pubkey>,
    pub instructions: Vec<RawInstruction>,
}

/// The payloads of a list of instructions.
pub open spec fn payloads(ixs: Seq<RawInstruction>) -> Seq<Seq<u8>> {
    ixs.map_values(|i: RawInstruction| i.data@)
}

/// What decoding each payload in turn gives, the failures left out and the order kept.
pub open spec fn decoded_all(accounts: Seq<Seq<u8>>, bufs: Seq<Seq<u8>>) -> Seq<IxModel>
    decreases bufs.len(),
{
    if bufs.len() == 0 {
        Seq::empty()
    } else {
        let before = decoded_all(accounts, bufs.drop_last());
        match decode_spec(accounts, bufs.last()) {
            Ok(m) => before.push(m),
            Err(_) => before,
        }
    }
}

pub open spec fn models_of(ixs: Seq<PumpProgramIx>) -> Seq<IxModel> {
    ixs.map_values(|i: PumpProgramIx| i@)
}

/// Decodes every instruction of `tx`. An instruction that does not decode is skipped
/// and does not stop the others.
pub fn decode_transaction(tx: &TransactionUpdate) -> (r: Vec<PumpProgramIx>)
    ensures
        models_of(r@) == decoded_all(keys_of(tx.account_keys@), payloads(tx.instructions@)),
{
    let mut out: Vec<PumpProgramIx> = Vec::new();
    let mut i: usize = 0;
    let ghost keys = keys_of(tx.account_keys@);
    let ghost bufs = payloads(tx.instructions@);
    while i < tx.instructions.len()
        invariant
            0 <= i <= tx.instructions@.len(),
            keys == keys_of(tx.account_keys@),
            bufs == payloads(tx.instructions@),
            models_of(out@) == decoded_all(keys, bufs.take(i as int)),
        decreases tx.instructions@.len() - i,
    {
        let accounts = copy_keys(&tx.account_keys);
        let r = PumpProgramIx::deserialize_pumpfun(accounts, tx.instructions[i].data.as_slice());
        assert(bufs.take(i + 1).drop_last() =~= bufs.take(i as int));
        assert(bufs.take(i + 1).last() == tx.instructions@[i as int].data@);
        match r {
            Ok(ix) => {
                out.push(ix);
                assert(models_of(out@) =~= decoded_all(keys, bufs.take(i as int)).push(ix@));
            },
            Err(_) => {},
        }
        i = i + 1;
    }
    assert(bufs.take(i as int) =~= bufs);
    out
}

fn copy_keys(keys: &Vec<Pubkey>) -> (r: Vec<Pubkey>)
    ensures
        r@ == keys@,
{
    let mut out: Vec<Pubkey> = Vec::new();
    let mut i: usize = 0;
    while i < keys.len()
        invariant
            0 <= i <= keys@.len(),
            out@ == keys@.take(i as int),
        decreases keys@.len() - i,
    {
        out.push(keys[i]);
        assert(out@ =~= keys@.take(i + 1));
        i = i + 1;
    }
    assert(out@ =~= keys@);
    out
}

/// Skipping: a payload that fails to decode adds nothing, and one that decodes adds
/// its instruction at the end, whatever came before.
pub proof fn lemma_decode_step(accounts: Seq<Seq<u8>>, bufs: Seq<Seq<u8>>, b: Seq<u8>)
    ensures
        decoded_all(accounts, bufs.push(b)) == match decode_spec(accounts, b) {
            Ok(m) => decoded_all(accounts, bufs).push(m),
            Err(_) => decoded_all(accounts, bufs),
        },
{
    assert(bufs.push(b).drop_last() =~= bufs);
}

/// A transaction with one instruction that decodes and one that does not yields the
/// first one's instruction alone, in either order.
pub proof fn lemma_fanout_isolation(accounts: Seq<Seq<u8>>, good: Seq<u8>, bad: Seq<u8>)
    requires
        decode_spec(accounts, good) is Ok,
        decode_spec(accounts, bad) is Err,
    ensures
        decoded_all(accounts, seq![good, bad]) == seq![decode_spec(accounts, good)->Ok_0],
        decoded_all(accounts, seq![bad, good]) == seq![decode_spec(accounts, good)->Ok_0],
{
    let e = Seq::<Seq<u8>>::empty();
    lemma_decode_step(accounts, e, good);
    lemma_decode_step(accounts, e, bad);
    assert(e.push(good) =~= seq![good]);
    assert(e.push(bad) =~= seq![bad]);
    lemma_decode_step(accounts, seq![good], bad);
    lemma_decode_step(accounts, seq![bad], good);
    assert(seq![good].push(bad) =~= seq![good, bad]);
    assert(seq![bad].push(good) =~= seq![bad, good]);
    assert(Seq::<IxModel>::empty().push(decode_spec(accounts, good)->Ok_0) =~= seq![decode_spec(accounts, good)->Ok_0]);
}

} // verus!
