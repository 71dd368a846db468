use cf_ddns::select::{endpoint_for, next_scan_step, ScanStep};

/// Drives one selection pass with a prober that answers from `reachable`;
/// returns the chosen index and the number of probes made.
fn drive(reachable: &[bool]) -> (Option<usize>, usize) {
    let mut answers: Vec<bool> = Vec::new();
    let mut probes = 0;
    loop {
        match next_scan_step(reachable.len(), &answers) {
            ScanStep::Probe(i) => {
                assert_eq!(i, answers.len());
                probes += 1;
                answers.push(reachable[i]);
            }
            ScanStep::Chosen(i) => return (Some(i), probes),
            ScanStep::Exhausted => return (None, probes),
        }
    }
}

#[test]
fn single_reachable_chosen_at_any_position() {
    for n in 1..6 {
        for k in 0..n {
            let mut reachable = vec![false; n];
            reachable[k] = true;
            assert_eq!(drive(&reachable), (Some(k), k + 1));
        }
    }
}

#[test]
fn none_reachable_probes_every_candidate_once() {
    for n in 0..6 {
        let reachable = vec![false; n];
        assert_eq!(drive(&reachable), (None, n));
    }
}

#[test]
fn first_reachable_wins() {
    assert_eq!(drive(&[false, true, true]), (Some(1), 2));
    assert_eq!(drive(&[true, true]), (Some(0), 1));
}

#[test]
fn empty_list_is_exhausted_at_once() {
    assert_eq!(next_scan_step(0, &vec![]), ScanStep::Exhausted);
}

#[test]
fn scan_step_on_partial_answers() {
    assert_eq!(next_scan_step(3, &vec![false]), ScanStep::Probe(1));
    assert_eq!(next_scan_step(3, &vec![false, false, false]), ScanStep::Exhausted);
    assert_eq!(next_scan_step(3, &vec![false, false, true]), ScanStep::Chosen(2));
}

#[test]
fn endpoint_keeps_address_and_port() {
    let e = endpoint_for(&"2001:db8::1".to_string(), 51820);
    assert_eq!(e.address, "2001:db8::1");
    assert_eq!(e.port, 51820);
}
