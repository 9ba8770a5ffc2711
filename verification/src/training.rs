//! The epoch schedule of a staged gradient-descent trainer. A training
//! run of `total_epoch` epochs is split into `rec_times` equal chunks
//! plus one final chunk for the remainder; the trainer runs one
//! gradient-descent stage per chunk and records the loss once after
//! each, producing a learning-curve trace without per-epoch history.

use vstd::prelude::*;

verus! {

/// The chunk sizes of a staged training run: `rec_times` chunks of
/// `total_epoch / rec_times` epochs each, then one more chunk holding
/// the division remainder when it is not zero.
pub open spec fn chunk_schedule(total_epoch: u64, rec_times: u64) -> Seq<u64>
    recommends
        1 <= rec_times,
{
    let base = Seq::new(rec_times as nat, |i: int| (total_epoch as int / rec_times as int) as u64);
    if total_epoch as int % rec_times as int == 0 {
        base
    } else {
        base.push((total_epoch as int % rec_times as int) as u64)
    }
}

/// The total number of epochs a schedule spends.
pub open spec fn epoch_sum(s: Seq<u64>) -> int
    decreases s.len(),
{
    if s.len() == 0 {
        0
    } else {
        epoch_sum(s.drop_last()) + s.last()
    }
}

proof fn lemma_sum_constant(n: nat, c: u64)
    ensures
        epoch_sum(Seq::new(n, |i: int| c)) == n * c,
    decreases n,
{
    if n > 0 {
        lemma_sum_constant((n - 1) as nat, c);
        assert(Seq::new(n, |i: int| c).drop_last() =~= Seq::new((n - 1) as nat, |i: int| c));
        assert((n - 1) * c + c == n * c) by (nonlinear_arith);
    }
}

/// No epoch is lost to chunking: the schedule spends exactly the
/// requested number of epochs.
pub proof fn lemma_schedule_total(total_epoch: u64, rec_times: u64)
    requires
        1 <= rec_times,
    ensures
        epoch_sum(chunk_schedule(total_epoch, rec_times)) == total_epoch,
{
    let q = total_epoch as int / rec_times as int;
    let r = total_epoch as int % rec_times as int;
    vstd::arithmetic::div_mod::lemma_fundamental_div_mod(total_epoch as int, rec_times as int);
    lemma_sum_constant(rec_times as nat, q as u64);
    if r != 0 {
        assert(chunk_schedule(total_epoch, rec_times).drop_last() =~= Seq::new(
            rec_times as nat,
            |i: int| q as u64,
        ));
    }
}

/// Computes the staged-training schedule. The first `rec_times` chunks
/// are the equal split `total_epoch / rec_times`; a final partial chunk
/// appears exactly when the split leaves a remainder; and the chunks
/// sum to `total_epoch`.
#[verifier::loop_isolation(false)]
pub fn epoch_chunks(total_epoch: u64, rec_times: u64) -> (chunks: Vec<u64>)
    requires
        1 <= rec_times,
    ensures
        chunks@ == chunk_schedule(total_epoch, rec_times),
        epoch_sum(chunks@) == total_epoch,
        chunks@.len() == rec_times as int + if total_epoch % rec_times == 0 {
            0int
        } else {
            1int
        },
        forall|k: int| 0 <= k < rec_times ==> chunks@[k] == total_epoch / rec_times,
{
    let epoch = total_epoch / rec_times;
    let remained = total_epoch % rec_times;
    let mut chunks: Vec<u64> = Vec::new();
    let mut i: u64 = 0;
    while i < rec_times
        invariant
            i <= rec_times,
            chunks@.len() == i,
            forall|k: int| 0 <= k < i ==> chunks@[k] == epoch,
        decreases rec_times - i,
    {
        chunks.push(epoch);
        i = i + 1;
    }
    if remained != 0 {
        chunks.push(remained);
    }
    proof {
        assert(chunks@ =~= chunk_schedule(total_epoch, rec_times));
        lemma_schedule_total(total_epoch, rec_times);
    }
    chunks
}

} // verus!
