use tron_vanity::address::{derive_candidate, TronAddress};
use tron_vanity::batch::{collect_found, limit_reached, process_batch, should_report, MinerState};

fn scalar(n: u8) -> [u8; 32] {
    let mut sk = [0u8; 32];
    sk[31] = n;
    sk
}

fn tagged(tag: u8) -> TronAddress {
    TronAddress { address: vec![tag], private_key: vec![tag, tag], same_chars_count: tag as usize }
}

#[test]
fn collect_found_keeps_order_and_drops_misses() {
    let results = vec![None, Some(tagged(1)), None, Some(tagged(2)), Some(tagged(3)), None];
    let found = collect_found(results);
    assert_eq!(found.len(), 3);
    assert_eq!(found[0].address, vec![1]);
    assert_eq!(found[1].address, vec![2]);
    assert_eq!(found[2].address, vec![3]);
}

#[test]
fn collect_found_of_empty_batch() {
    assert_eq!(collect_found(vec![]).len(), 0);
    assert_eq!(collect_found(vec![None, None]).len(), 0);
}

#[test]
fn limit_enforcement_scenario() {
    // limit 5, batch size 100, and draws engineered so that exactly 3
    // attempts qualify in the first batch, 2 in the second and 2 in the
    // third: the invalid draws are all-zero scalars, and threshold 1 accepts
    // every derived address.
    let mut batches: Vec<Vec<[u8; 32]>> = vec![vec![[0u8; 32]; 100]; 3];
    batches[0][10] = scalar(1);
    batches[0][40] = scalar(2);
    batches[0][70] = scalar(3);
    batches[1][5] = scalar(4);
    batches[1][95] = scalar(5);
    batches[2][20] = scalar(6);
    batches[2][60] = scalar(7);

    let mut state = MinerState::new(5);
    let mut written: Vec<TronAddress> = Vec::new();
    let mut batches_run = 0;
    for batch in &batches {
        batches_run += 1;
        let mut results = Vec::new();
        for sk in batch {
            state.note_attempt();
            results.push(derive_candidate(sk, 1));
        }
        let (records, stop) = process_batch(&mut state, results);
        for rec in records {
            written.push(rec);
        }
        if stop {
            break;
        }
    }

    // the scheduler stopped after the second batch, with the crossing
    // batch's records written in full and nothing of the third
    assert_eq!(batches_run, 2);
    assert_eq!(state.attempts, 200);
    assert_eq!(state.found, 5);
    assert_eq!(written.len(), 5);
    for (i, rec) in written.iter().enumerate() {
        let expect = derive_candidate(&scalar(i as u8 + 1), 1).unwrap();
        assert_eq!(rec.address, expect.address);
        assert_eq!(rec.private_key, expect.private_key);
    }
}

#[test]
fn zero_limit_never_stops() {
    let mut state = MinerState::new(0);
    let results = vec![Some(tagged(1)), Some(tagged(2))];
    let (records, stop) = process_batch(&mut state, results);
    assert_eq!(records.len(), 2);
    assert!(!stop);
    assert!(!state.note_written(1000));
}

#[test]
fn counters_exact_and_monotonic() {
    let workers: u64 = 4;
    let per_worker: u64 = 1000;
    let mut state = MinerState::new(0);
    let mut prev = 0;
    for _ in 0..workers {
        for _ in 0..per_worker {
            state.note_attempt();
            assert!(state.attempts > prev);
            prev = state.attempts;
        }
    }
    assert_eq!(state.attempts, workers * per_worker);

    // the found counter moves by exactly the accepted counts, never down
    let accepted = [3u64, 0, 2];
    let mut total = 0;
    let mut prev_found = 0;
    for n in accepted {
        let stop = state.note_written(n);
        total += n;
        assert!(state.found >= prev_found);
        prev_found = state.found;
        assert_eq!(state.found, total);
        assert!(!stop);
    }
    assert_eq!(state.found, 5);
}

#[test]
fn limit_reached_cases() {
    assert!(!limit_reached(0, 0));
    assert!(!limit_reached(0, 1_000_000));
    assert!(!limit_reached(5, 4));
    assert!(limit_reached(5, 5));
    assert!(limit_reached(5, 6));
}

#[test]
fn report_due_at_positive_interval_multiples() {
    assert!(!should_report(0));
    assert!(!should_report(1));
    assert!(!should_report(499_999));
    assert!(should_report(500_000));
    assert!(!should_report(500_001));
    assert!(should_report(1_000_000));
}
