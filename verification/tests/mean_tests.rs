use gallery::mean::Mean;

#[test]
fn mean_of_empty_window_is_zero() {
    let m = Mean::new(3);
    assert_eq!(m.get(), 0);
    assert_eq!(m.len(), 0);
}

#[test]
fn mean_is_arithmetic_mean_of_window() {
    let mut m = Mean::new(3);
    m.push(3_000_000);
    assert_eq!(m.get(), 3_000_000);
    m.push(6_000_000);
    assert_eq!(m.get(), 4_500_000);
    m.push(9_000_000);
    assert_eq!(m.get(), 6_000_000);
}

#[test]
fn mean_evicts_oldest_once_full() {
    let mut m = Mean::new(3);
    m.push(1);
    m.push(2);
    m.push(3);
    m.push(10);
    // window is now 2, 3, 10
    assert_eq!(m.len(), 3);
    assert_eq!(m.get(), 5);
    m.push(20);
    m.push(30);
    // window is now 10, 20, 30
    assert_eq!(m.get(), 20);
}

#[test]
fn mean_rounds_toward_zero() {
    let mut m = Mean::new(2);
    m.push(-3);
    m.push(-4);
    assert_eq!(m.get(), -3);
    let mut p = Mean::new(2);
    p.push(3);
    p.push(4);
    assert_eq!(p.get(), 3);
}

#[test]
fn mean_survives_extreme_values() {
    let mut m = Mean::new(3);
    m.push(i64::MAX);
    m.push(i64::MAX);
    m.push(i64::MAX);
    assert_eq!(m.get(), i64::MAX);
    let mut n = Mean::new(2);
    n.push(i64::MIN);
    n.push(i64::MIN);
    assert_eq!(n.get(), i64::MIN);
}

#[test]
fn mean_of_no_capacity_stays_empty() {
    let mut m = Mean::new(0);
    m.push(5);
    assert_eq!(m.len(), 0);
    assert_eq!(m.get(), 0);
}
