//! The per-cycle processing pipeline: drain fixed-size blocks from the
//! microphone and reference buffers (zero-filling whatever is not
//! available, so a starved pipeline still emits a full block), run the
//! DSP chain — echo cancellation first, then noise reduction, each
//! under its own enable flag — and store the result subject to the
//! usual drop-on-full policy.
//!
//! The two numeric kernels (the per-sample subtraction and the
//! spectral-subtraction transform) work on hardware sample values and
//! are passed in by the embedding program; their pointwise application
//! and the chain around them are specified and verified here.

use vstd::prelude::*;

use crate::ring::RingBuffer;
use crate::ring::push_all_model;

verus! {

/// The first `block` samples a drain yields from a buffer holding `s`:
/// the available samples, oldest first, then `fill` for every position
/// beyond what was available.
pub open spec fn padded_front<T>(s: Seq<T>, block: nat, fill: T) -> Seq<T> {
    if s.len() >= block {
        s.take(block as int)
    } else {
        s + Seq::new((block - s.len()) as nat, |i: int| fill)
    }
}

/// Drains up to `block` samples from the buffer and zero-fills the
/// rest, so the result has length `block` regardless of underrun.
pub fn drain_block<T: Copy>(buf: &mut RingBuffer<T>, block: usize, fill: T) -> (r: Vec<T>)
    ensures
        final(buf).cap() == old(buf).cap(),
        r@.len() == block as nat,
        r@ == padded_front(old(buf)@, block as nat, fill),
        final(buf)@ == old(buf)@.skip(
            vstd::math::min(block as int, old(buf)@.len() as int),
        ),
{
    let mut r: Vec<T> = Vec::new();
    let mut i: usize = 0;
    while i < block
        invariant
            i <= block,
            buf.cap() == old(buf).cap(),
            r@.len() == i as nat,
            r@ == padded_front(old(buf)@, i as nat, fill),
            buf@ == old(buf)@.skip(vstd::math::min(i as int, old(buf)@.len() as int)),
        decreases block - i,
    {
        let ghost prev = r@;
        let v = buf.pop_or(fill);
        r.push(v);
        proof {
            if (i as int) < old(buf)@.len() {
                assert(padded_front(old(buf)@, (i + 1) as nat, fill) =~= prev.push(
                    old(buf)@[i as int],
                ));
                assert(old(buf)@.skip(i as int).drop_first() =~= old(buf)@.skip(i + 1));
            } else {
                assert(padded_front(old(buf)@, (i + 1) as nat, fill) =~= prev.push(fill));
            }
        }
        i = i + 1;
    }
    r
}

/// Pushes every sample of the block into the buffer, each one subject
/// to the drop-on-full policy.
pub fn store_block<T: Copy>(buf: &mut RingBuffer<T>, samples: &Vec<T>)
    ensures
        final(buf).cap() == old(buf).cap(),
        final(buf)@ == push_all_model(old(buf)@, old(buf).cap(), samples@),
{
    let mut i: usize = 0;
    proof {
        assert(samples@.skip(0) =~= samples@);
    }
    while i < samples.len()
        invariant
            i <= samples@.len(),
            buf.cap() == old(buf).cap(),
            push_all_model(buf@, buf.cap(), samples@.skip(i as int)) == push_all_model(
                old(buf)@,
                old(buf).cap(),
                samples@,
            ),
        decreases samples@.len() - i,
    {
        let ghost prev = buf@;
        let _ = buf.push(samples[i]);
        proof {
            assert(samples@.skip(i as int).drop_first() =~= samples@.skip(i + 1));
            assert(samples@.skip(i as int)[0] == samples@[i as int]);
        }
        i = i + 1;
    }
}

/// `out` is `mic` with `reference` cancelled pointwise by the sample
/// kernel `diff`: for every index covered by both blocks, `out[i]` is a
/// result of `diff(mic[i], reference[i])`; positions past the reference
/// block are passed through unchanged.
pub open spec fn pointwise_sub_ok<T, FSub: Fn(T, T) -> T>(
    diff: FSub,
    mic: Seq<T>,
    reference: Seq<T>,
    out: Seq<T>,
) -> bool {
    &&& out.len() == mic.len()
    &&& forall|i: int|
        0 <= i < mic.len() && i < reference.len() ==> call_ensures(
            diff,
            (mic[i], reference[i]),
            #[trigger] out[i],
        )
    &&& forall|i: int| reference.len() <= i < mic.len() ==> #[trigger] out[i] == mic[i]
}

/// Echo cancellation: subtracts the reference block from the
/// microphone block pointwise, through the per-sample kernel `diff`
/// (naive time-domain subtraction — the blocks are assumed to be
/// sample-aligned). Positions past the end of the reference block are
/// passed through unchanged.
pub fn echo_cancel<T: Copy, FSub: Fn(T, T) -> T>(
    mic: &Vec<T>,
    reference: &Vec<T>,
    diff: FSub,
) -> (out: Vec<T>)
    requires
        forall|a: T, b: T| #[trigger] call_requires(diff, (a, b)),
    ensures
        pointwise_sub_ok(diff, mic@, reference@, out@),
{
    let mut out: Vec<T> = Vec::new();
    let mut i: usize = 0;
    while i < mic.len()
        invariant
            forall|a: T, b: T| #[trigger] call_requires(diff, (a, b)),
            i <= mic@.len(),
            out@.len() == i as nat,
            forall|j: int|
                0 <= j < i && j < reference@.len() ==> call_ensures(
                    diff,
                    (mic@[j], reference@[j]),
                    #[trigger] out@[j],
                ),
            forall|j: int| reference@.len() <= j < i ==> #[trigger] out@[j] == mic@[j],
        decreases mic@.len() - i,
    {
        if i < reference.len() {
            let v = diff(mic[i], reference[i]);
            out.push(v);
        } else {
            out.push(mic[i]);
        }
        i = i + 1;
    }
    out
}

/// Exactness of echo cancellation: whenever the kernel's contract
/// determines its result as a function `f` of the two samples, the
/// cancelled block of a full-length pair is exactly the pointwise
/// image `f(mic[i], reference[i])` — so with echo cancellation enabled
/// and noise reduction disabled the pipeline's output block is the
/// exact pointwise difference of the two input blocks.
pub proof fn lemma_echo_cancel_exact<T, FSub: Fn(T, T) -> T>(
    diff: FSub,
    f: spec_fn(T, T) -> T,
    mic: Seq<T>,
    reference: Seq<T>,
    out: Seq<T>,
)
    requires
        forall|a: T, b: T, y: T| #[trigger] call_ensures(diff, (a, b), y) ==> y == f(a, b),
        mic.len() == reference.len(),
        pointwise_sub_ok(diff, mic, reference, out),
    ensures
        out == Seq::new(mic.len(), |i: int| f(mic[i], reference[i])),
{
    assert(out =~= Seq::new(mic.len(), |i: int| f(mic[i], reference[i])));
}

/// `out` is the chain of the two DSP stages over `mic` and
/// `reference`: echo cancellation through `diff` when `echo_on`, then
/// noise reduction through the whole-block kernel `nr` when
/// `noise_on`, in that order on the same block.
pub open spec fn chain_ok<T, FSub: Fn(T, T) -> T, FNr: Fn(Vec<T>) -> Vec<T>>(
    diff: FSub,
    nr: FNr,
    echo_on: bool,
    noise_on: bool,
    mic: Seq<T>,
    reference: Seq<T>,
    out: Vec<T>,
) -> bool {
    if echo_on && noise_on {
        exists|mid: Vec<T>|
            #[trigger] call_ensures(nr, (mid,), out) && pointwise_sub_ok(diff, mic, reference, mid@)
    } else if echo_on {
        pointwise_sub_ok(diff, mic, reference, out@)
    } else if noise_on {
        exists|mid: Vec<T>| #[trigger] call_ensures(nr, (mid,), out) && mid@ == mic
    } else {
        out@ == mic
    }
}

/// Runs the DSP chain over one block: echo cancellation first when
/// enabled, noise reduction second when enabled, on the same block.
/// With both stages disabled the microphone block passes through
/// unchanged.
pub fn process_block<T: Copy, FSub: Fn(T, T) -> T, FNr: Fn(Vec<T>) -> Vec<T>>(
    mic: Vec<T>,
    reference: Vec<T>,
    echo_on: bool,
    noise_on: bool,
    diff: FSub,
    nr: FNr,
) -> (out: Vec<T>)
    requires
        forall|a: T, b: T| #[trigger] call_requires(diff, (a, b)),
        forall|v: Vec<T>| v@.len() == mic@.len() ==> #[trigger] call_requires(nr, (v,)),
    ensures
        chain_ok(diff, nr, echo_on, noise_on, mic@, reference@, out),
{
    let ghost gmic = mic@;
    let mid = if echo_on {
        echo_cancel(&mic, &reference, diff)
    } else {
        mic
    };
    if noise_on {
        let ghost gmid = mid;
        let out = nr(mid);
        proof {
            assert(call_ensures(nr, (gmid,), out));
        }
        out
    } else {
        mid
    }
}

/// One cycle of the processing pipeline: drain a zero-padded block
/// from the microphone buffer and one from the reference buffer, run
/// the DSP chain over them with the flags captured at cycle start, and
/// push all resulting samples into the processed buffer subject to the
/// drop-on-full policy.
pub fn process_cycle<T: Copy, FSub: Fn(T, T) -> T, FNr: Fn(Vec<T>) -> Vec<T>>(
    mic_buf: &mut RingBuffer<T>,
    ref_buf: &mut RingBuffer<T>,
    out_buf: &mut RingBuffer<T>,
    block: usize,
    fill: T,
    echo_on: bool,
    noise_on: bool,
    diff: FSub,
    nr: FNr,
)
    requires
        forall|a: T, b: T| #[trigger] call_requires(diff, (a, b)),
        forall|v: Vec<T>| v@.len() == block as nat ==> #[trigger] call_requires(nr, (v,)),
    ensures
        final(mic_buf).cap() == old(mic_buf).cap(),
        final(ref_buf).cap() == old(ref_buf).cap(),
        final(out_buf).cap() == old(out_buf).cap(),
        final(mic_buf)@ == old(mic_buf)@.skip(
            vstd::math::min(block as int, old(mic_buf)@.len() as int),
        ),
        final(ref_buf)@ == old(ref_buf)@.skip(
            vstd::math::min(block as int, old(ref_buf)@.len() as int),
        ),
        exists|processed: Vec<T>|
            {
                &&& #[trigger] chain_ok(
                    diff,
                    nr,
                    echo_on,
                    noise_on,
                    padded_front(old(mic_buf)@, block as nat, fill),
                    padded_front(old(ref_buf)@, block as nat, fill),
                    processed,
                )
                &&& final(out_buf)@ == push_all_model(
                    old(out_buf)@,
                    old(out_buf).cap(),
                    processed@,
                )
            },
{
    let mic = drain_block(mic_buf, block, fill);
    let reference = drain_block(ref_buf, block, fill);
    let processed = process_block(mic, reference, echo_on, noise_on, diff, nr);
    let ghost gprocessed = processed;
    store_block(out_buf, &processed);
    proof {
        assert(chain_ok(
            diff,
            nr,
            echo_on,
            noise_on,
            padded_front(old(mic_buf)@, block as nat, fill),
            padded_front(old(ref_buf)@, block as nat, fill),
            gprocessed,
        ));
    }
}

} // verus!
