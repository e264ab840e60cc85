use solo_machine::dispatch::HandlerDispatch;

fn run(count: usize, results: &[bool]) -> (Vec<usize>, bool) {
    let mut d = HandlerDispatch::new(count);
    let mut asked = Vec::new();
    while let Some(i) = d.next_handler() {
        asked.push(i);
        d.on_result(results[i]);
    }
    assert!(d.is_over());
    (asked, d.succeeded())
}

#[test]
fn handlers_run_in_order_until_one_fails() {
    assert_eq!(run(3, &[true, true, true]), (vec![0, 1, 2], true));
    assert_eq!(run(3, &[true, false, true]), (vec![0, 1], false));
    assert_eq!(run(3, &[false, true, true]), (vec![0], false));
    assert_eq!(run(0, &[]), (vec![], true));
}

#[test]
fn results_after_the_end_are_ignored() {
    let mut d = HandlerDispatch::new(1);
    d.on_result(false);
    d.on_result(true);
    assert!(d.is_over());
    assert!(!d.succeeded());
    assert_eq!(d.next_handler(), None);
}
