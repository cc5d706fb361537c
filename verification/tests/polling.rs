use futures::task::noop_waker;
use mvar::MVar;
use mvar::UnsafeCell;

#[test]
fn put_then_take_yields_value() {
    let waker = noop_waker();
    let mut m: MVar<u64> = MVar::new_empty();
    let mut p = m.put(42);
    let mut t = m.take();
    assert!(p.poll(&mut m, &waker));
    assert_eq!(t.poll(&mut m, &waker), Some(42));
}

#[test]
fn prepopulated_cell_yields_value_immediately() {
    let waker = noop_waker();
    let mut m: MVar<u64> = MVar::new(7);
    let mut t = m.take();
    assert_eq!(t.poll(&mut m, &waker), Some(7));
}

#[test]
fn take_suspends_until_put() {
    let waker = noop_waker();
    let mut m: MVar<&str> = MVar::new_empty();
    let mut t = m.take();
    assert_eq!(t.poll(&mut m, &waker), None);
    assert_eq!(t.poll(&mut m, &waker), None);
    let mut p = m.put("hello");
    assert!(p.poll(&mut m, &waker));
    assert_eq!(t.poll(&mut m, &waker), Some("hello"));
}

#[test]
fn put_suspends_until_take() {
    let waker = noop_waker();
    let mut m: MVar<u64> = MVar::new(1);
    let mut p = m.put(2);
    assert!(!p.poll(&mut m, &waker));
    assert!(!p.poll(&mut m, &waker));
    assert!(p.is_pending());
    let mut t = m.take();
    assert_eq!(t.poll(&mut m, &waker), Some(1));
    assert!(p.poll(&mut m, &waker));
    assert!(!p.is_pending());
    assert_eq!(t.poll(&mut m, &waker), Some(2));
}

#[test]
fn alternating_puts_and_takes_keep_order() {
    let waker = noop_waker();
    let mut m: MVar<u64> = MVar::new_empty();
    let values: Vec<u64> = vec![10, 20, 30, 40];
    let mut received: Vec<u64> = Vec::new();
    for v in &values {
        let mut p = m.put(*v);
        let mut t = m.take();
        assert!(p.poll(&mut m, &waker));
        received.push(t.poll(&mut m, &waker).unwrap());
    }
    assert_eq!(received, values);
}

#[test]
fn one_put_wins_per_cycle_under_contention() {
    let waker = noop_waker();
    let mut m: MVar<u64> = MVar::new_empty();
    let mut puts = vec![m.put(100), m.put(200), m.put(300), m.put(400)];
    let mut winners: usize = 0;
    for p in puts.iter_mut() {
        if p.poll(&mut m, &waker) {
            winners += 1;
        }
    }
    assert_eq!(winners, 1);
    assert!(!puts[0].is_pending());
    assert!(puts[1].is_pending());
    assert!(puts[2].is_pending());
    assert!(puts[3].is_pending());

    // After a take empties the cell, exactly one further attempt wins.
    let mut t = m.take();
    assert_eq!(t.poll(&mut m, &waker), Some(100));
    let mut second_round: usize = 0;
    for p in puts.iter_mut() {
        if p.is_pending() && p.poll(&mut m, &waker) {
            second_round += 1;
        }
    }
    assert_eq!(second_round, 1);
    assert_eq!(t.poll(&mut m, &waker), Some(200));
}

#[test]
fn second_immediate_take_suspends() {
    let waker = noop_waker();
    let mut m: MVar<u64> = MVar::new(7);
    let mut t = m.take();
    assert_eq!(t.poll(&mut m, &waker), Some(7));
    let mut t2 = m.take();
    assert_eq!(t2.poll(&mut m, &waker), None);
    let mut p = m.put(8);
    assert!(p.poll(&mut m, &waker));
    assert_eq!(t2.poll(&mut m, &waker), Some(8));
}

#[test]
fn storage_cell_exchanges_whole_values() {
    let mut cell: UnsafeCell<u64> = UnsafeCell::new(5);
    let mut held: u64 = 9;
    cell.with_mut(&mut held);
    assert_eq!(held, 5);
    let mut back: u64 = 0;
    cell.with_mut(&mut back);
    assert_eq!(back, 9);
}
