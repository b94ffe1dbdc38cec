//! What holds of every download: how the byte cap bounds what is counted,
//! what a failed stream or a missing duration leads to, and that the rate is
//! always that of the bytes counted.

use vstd::prelude::*;
use crate::download_tester::{
    byte_total, chunk_len, stream_failure_detail, Progress, Signal, Step,
};
use crate::errors::Failure;
use crate::rate::{measured, zero_duration, Measurement};

verus! {

/// One chunk against the cap: the download ends with the chunk that brings
/// the count to the cap or beyond, that chunk is counted in full, and so the
/// count exceeds the cap by no more than the chunk's size. Until then the
/// download reads on, and what held of it before holds of it after.
pub proof fn lemma_step_against_cap(progress: Progress, data: Seq<u8>)
    requires
        progress.streaming(),
    ensures
        match progress.step(Signal::Chunk(data)) {
            Step::Finished { downloaded, capped, .. } => {
                &&& capped
                &&& progress.cap matches Some(cap)
                &&& downloaded == progress.downloaded + data.len()
                &&& cap <= downloaded <= cap + data.len()
            },
            Step::Continue { progress: next, .. } => {
                &&& next.streaming()
                &&& next.cap == progress.cap
                &&& next.downloaded == progress.downloaded + data.len()
                &&& progress.cap matches Some(cap) ==> next.downloaded < cap
            },
            Step::Failed(_) => false,
        },
{
}

proof fn lemma_take_first(signals: Seq<Signal>, j: int)
    requires
        0 < j <= signals.len(),
    ensures
        byte_total(signals.take(j)) == chunk_len(signals[0]) + byte_total(
            signals.skip(1).take(j - 1),
        ),
{
    assert(signals.take(j).len() > 0);
    assert(signals.take(j)[0] == signals[0]);
    assert(signals.take(j).skip(1) =~= signals.skip(1).take(j - 1));
}

/// A whole download, event by event. A download that may still read looks at
/// the events up to the first that ends it and at none after; the bytes that
/// it has counted are those that it had before and those of the chunks that
/// it looked at. Under a cap the count stays below the cap until the last
/// chunk looked at, which is counted in full: where the cap ends the
/// download, the count has reached the cap and exceeds it by no more than
/// that chunk's size.
pub proof fn lemma_run_counts_consumed(progress: Progress, signals: Seq<Signal>)
    requires
        progress.streaming(),
    ensures
        ({
            let k = progress.consumed(signals) as int;
            let counted = progress.downloaded + byte_total(signals.take(k));
            &&& k <= signals.len()
            &&& signals.len() > 0 ==> k >= 1
            &&& progress.run(signals) == progress.run(signals.take(k))
            &&& forall|j: int|
                0 < j < k ==> (progress.cap matches Some(cap) ==> progress.downloaded
                    + #[trigger] byte_total(signals.take(j)) < cap)
            &&& match progress.run(signals) {
                Step::Continue { progress: end, .. } => {
                    &&& k == signals.len()
                    &&& end.streaming()
                    &&& end.cap == progress.cap
                    &&& end.downloaded == counted
                },
                Step::Finished { downloaded, capped, .. } => {
                    &&& k >= 1
                    &&& downloaded == counted
                    &&& capped ==> {
                        &&& signals[k - 1] is Chunk
                        &&& progress.cap matches Some(cap)
                        &&& cap <= downloaded <= cap + chunk_len(signals[k - 1])
                    }
                    &&& !capped ==> signals[k - 1] is Closed
                },
                Step::Failed(failure) => {
                    &&& k >= 1
                    &&& signals[k - 1] matches Signal::Failed(detail)
                    &&& failure == Failure::Network(stream_failure_detail(counted, detail))
                },
            }
        }),
    decreases signals.len(),
{
    let k = progress.consumed(signals) as int;
    if signals.len() == 0 {
        assert(signals.take(0) =~= signals);
    } else {
        let rest = signals.skip(1);
        assert(byte_total(signals.take(1)) == chunk_len(signals[0])) by {
            lemma_take_first(signals, 1);
            assert(rest.take(0).len() == 0);
        }
        match progress.step(signals[0]) {
            Step::Continue { progress: next, .. } => {
                let data = signals[0]->Chunk_0;
                lemma_step_against_cap(progress, data);
                lemma_run_counts_consumed(next, rest);
                let k1 = next.consumed(rest) as int;
                assert(k == k1 + 1);
                lemma_take_first(signals, k);
                assert(signals.take(k).skip(1) =~= rest.take(k1));
                assert(signals.take(k)[0] == signals[0]);
                assert(progress.run(signals.take(k)) == next.run(rest.take(k1)));
                assert forall|j: int| 0 < j < k implies (progress.cap matches Some(cap)
                    ==> progress.downloaded + #[trigger] byte_total(signals.take(j)) < cap) by {
                    lemma_take_first(signals, j);
                    if j == 1 {
                        assert(rest.take(0) =~= Seq::<Signal>::empty());
                    } else {
                        assert(0 < j - 1 < k1);
                        assert(progress.cap matches Some(cap) ==> next.downloaded + byte_total(
                            rest.take(j - 1),
                        ) < cap);
                    }
                }
                if k1 >= 1 {
                    assert(signals[k - 1] == rest[k1 - 1]);
                }
            },
            Step::Finished { .. } => {
                assert(k == 1);
                assert(signals.take(1)[0] == signals[0]);
                if signals[0] is Chunk {
                    lemma_step_against_cap(progress, signals[0]->Chunk_0);
                }
            },
            Step::Failed(_) => {
                assert(k == 1);
                assert(signals.take(1)[0] == signals[0]);
            },
        }
    }
}

/// A download under a cap, from its first byte. The rate that the download
/// reports is that of the bytes counted when consumption ended, over the
/// duration given: never that of the cap itself. Where the cap ended the
/// download, the bytes counted have reached the cap and exceed it by no more
/// than the size of the last chunk read, and before that chunk they were
/// below the cap.
pub proof fn lemma_capped_download(cap: usize, signals: Seq<Signal>, elapsed_nanos: int)
    ensures
        ({
            let first = Progress::fresh(Some(cap));
            let k = first.consumed(signals) as int;
            let counted = byte_total(signals.take(k));
            &&& k <= signals.len()
            &&& forall|j: int| 0 < j < k ==> #[trigger] byte_total(signals.take(j)) < cap
            &&& first.run(signals) matches Step::Finished { capped: true, .. } ==> {
                &&& k >= 1
                &&& cap <= counted <= cap + chunk_len(signals[k - 1])
            }
            &&& first.run(signals) is Failed ==> first.outcome(signals, elapsed_nanos) is Err
            &&& !(first.run(signals) is Failed) ==> first.outcome(signals, elapsed_nanos)
                == measured(counted, elapsed_nanos)
        }),
{
    let first = Progress::fresh(Some(cap));
    lemma_run_counts_consumed(first, signals);
}

/// A download over a duration of zero or less has no rate, whatever its
/// stream yielded: where the stream did not fail, the failure is the one that
/// names the zero duration.
pub proof fn lemma_download_needs_duration(
    progress: Progress,
    signals: Seq<Signal>,
    elapsed_nanos: int,
)
    requires
        elapsed_nanos <= 0,
    ensures
        progress.outcome(signals, elapsed_nanos) is Err,
        !(progress.run(signals) is Failed) ==> progress.outcome(signals, elapsed_nanos) == Err::<
            Measurement,
            Failure,
        >(Failure::InvalidResponse(zero_duration())),
{
}

/// A stream that fails ends the download without a rate, whatever the
/// duration: the failure is a network failure, and its detail names the bytes
/// counted before the stream failed.
pub proof fn lemma_failed_stream_has_no_rate(
    progress: Progress,
    signals: Seq<Signal>,
    elapsed_nanos: int,
)
    requires
        progress.streaming(),
        progress.run(signals) is Failed,
    ensures
        ({
            let k = progress.consumed(signals) as int;
            let counted = progress.downloaded + byte_total(signals.take(k));
            &&& 1 <= k <= signals.len()
            &&& signals[k - 1] matches Signal::Failed(detail)
            &&& progress.outcome(signals, elapsed_nanos) == Err::<Measurement, Failure>(
                Failure::Network(stream_failure_detail(counted, detail)),
            )
        }),
{
    lemma_run_counts_consumed(progress, signals);
}

} // verus!
