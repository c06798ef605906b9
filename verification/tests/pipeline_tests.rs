use cancelcaster::pipeline::drain_block;
use cancelcaster::pipeline::echo_cancel;
use cancelcaster::pipeline::process_block;
use cancelcaster::pipeline::process_cycle;
use cancelcaster::pipeline::store_block;
use cancelcaster::ring::RingBuffer;

#[test]
fn drain_block_zero_fills_underrun() {
    let mut buf: RingBuffer<f32> = RingBuffer::new(16);
    buf.push(0.25);
    buf.push(-0.5);
    let block = drain_block(&mut buf, 4, 0.0);
    assert_eq!(block, vec![0.25, -0.5, 0.0, 0.0]);
    assert!(buf.is_empty());
}

#[test]
fn drain_block_takes_only_one_block() {
    let mut buf: RingBuffer<i64> = RingBuffer::new(16);
    for v in [1, 2, 3, 4, 5] {
        buf.push(v);
    }
    let block = drain_block(&mut buf, 3, 0);
    assert_eq!(block, vec![1, 2, 3]);
    assert_eq!(buf.len(), 2);
    assert_eq!(buf.pop(), Some(4));
    assert_eq!(buf.pop(), Some(5));
}

#[test]
fn store_block_drops_on_full() {
    let mut buf: RingBuffer<i64> = RingBuffer::new(3);
    store_block(&mut buf, &vec![7, 8, 9, 10, 11]);
    assert_eq!(buf.len(), 3);
    assert_eq!(buf.pop(), Some(7));
    assert_eq!(buf.pop(), Some(8));
    assert_eq!(buf.pop(), Some(9));
    assert_eq!(buf.pop(), None);
}

#[test]
fn echo_cancel_is_exact_pointwise_subtraction() {
    let mic: Vec<f32> = vec![0.5, -0.25, 1.0, 0.125];
    let reference: Vec<f32> = vec![0.25, 0.5, -1.0, 0.0];
    let out = echo_cancel(&mic, &reference, |a: f32, b: f32| a - b);
    assert_eq!(out.len(), mic.len());
    for i in 0..mic.len() {
        let expected = mic[i] - reference[i];
        assert!((out[i] - expected).abs() <= 1e-6);
    }
}

#[test]
fn echo_cancel_passes_through_past_reference() {
    let mic: Vec<i64> = vec![10, 20, 30];
    let reference: Vec<i64> = vec![1];
    let out = echo_cancel(&mic, &reference, |a: i64, b: i64| a.wrapping_sub(b));
    assert_eq!(out, vec![9, 20, 30]);
}

#[test]
fn chain_with_both_stages_disabled_is_identity() {
    let mic: Vec<i64> = vec![3, 1, 4, 1, 5];
    let reference: Vec<i64> = vec![9, 9, 9, 9, 9];
    let out = process_block(
        mic.clone(),
        reference,
        false,
        false,
        |a: i64, b: i64| a.wrapping_sub(b),
        |v: Vec<i64>| v,
    );
    assert_eq!(out, mic);
}

#[test]
fn chain_echo_only_subtracts() {
    let mic: Vec<i64> = vec![10, 10, 10];
    let reference: Vec<i64> = vec![1, 2, 3];
    let out = process_block(
        mic,
        reference,
        true,
        false,
        |a: i64, b: i64| a.wrapping_sub(b),
        |v: Vec<i64>| v,
    );
    assert_eq!(out, vec![9, 8, 7]);
}

#[test]
fn chain_noise_only_applies_block_kernel() {
    let mic: Vec<i64> = vec![8, -6, 4];
    let reference: Vec<i64> = vec![1, 1, 1];
    let out = process_block(
        mic,
        reference,
        false,
        true,
        |a: i64, b: i64| a.wrapping_sub(b),
        |v: Vec<i64>| v.iter().map(|x| x / 2).collect(),
    );
    assert_eq!(out, vec![4, -3, 2]);
}

#[test]
fn chain_runs_echo_before_noise() {
    let mic: Vec<i64> = vec![10, 10];
    let reference: Vec<i64> = vec![2, 4];
    let out = process_block(
        mic,
        reference,
        true,
        true,
        |a: i64, b: i64| a.wrapping_sub(b),
        |v: Vec<i64>| v.iter().map(|x| x * 10).collect(),
    );
    assert_eq!(out, vec![80, 60]);
}

#[test]
fn process_cycle_drains_processes_and_stores() {
    let mut mic_buf: RingBuffer<f32> = RingBuffer::new(16);
    let mut ref_buf: RingBuffer<f32> = RingBuffer::new(16);
    let mut out_buf: RingBuffer<f32> = RingBuffer::new(16);
    for v in [0.5, 0.25, -0.75] {
        mic_buf.push(v);
    }
    ref_buf.push(0.5);
    process_cycle(
        &mut mic_buf,
        &mut ref_buf,
        &mut out_buf,
        4,
        0.0,
        true,
        false,
        |a: f32, b: f32| a - b,
        |v: Vec<f32>| v,
    );
    assert!(mic_buf.is_empty());
    assert!(ref_buf.is_empty());
    let out = out_buf.snapshot();
    let expected: Vec<f32> = vec![0.0, 0.25, -0.75, 0.0];
    assert_eq!(out.len(), 4);
    for i in 0..4 {
        assert!((out[i] - expected[i]).abs() <= 1e-6);
    }
}

#[test]
fn starved_cycle_still_emits_a_full_block() {
    let mut mic_buf: RingBuffer<f32> = RingBuffer::new(16);
    let mut ref_buf: RingBuffer<f32> = RingBuffer::new(16);
    let mut out_buf: RingBuffer<f32> = RingBuffer::new(16);
    process_cycle(
        &mut mic_buf,
        &mut ref_buf,
        &mut out_buf,
        8,
        0.0,
        true,
        false,
        |a: f32, b: f32| a - b,
        |v: Vec<f32>| v,
    );
    assert_eq!(out_buf.len(), 8);
    for v in out_buf.snapshot() {
        assert_eq!(v, 0.0_f32);
    }
}
