use frtb_engine::commodity_buckets::{
    commodity_buckets, commodity_correlation_structure, commodity_curves, CommodityRow, EntryPair,
};
use frtb_engine::grouping::{group_by_keys, same_key};

fn row(rc: &str, rf: &str, loc: &str, b: &str) -> CommodityRow {
    CommodityRow {
        risk_class: rc.to_string(),
        risk_factor: rf.to_string(),
        location: loc.to_string(),
        bucket: b.to_string(),
    }
}

fn key(parts: &[&str]) -> Vec<String> {
    parts.iter().map(|s| s.to_string()).collect()
}

#[test]
fn same_key_compares_every_part() {
    assert!(same_key(&key(&["1", "Gold"]), &key(&["1", "Gold"])));
    assert!(!same_key(&key(&["1", "Gold"]), &key(&["1", "Silver"])));
    assert!(!same_key(&key(&["1"]), &key(&["1", "Gold"])));
    assert!(same_key(&key(&[]), &key(&[])));
}

#[test]
fn group_by_keys_in_order_of_first_appearance() {
    let keys = vec![key(&["a"]), key(&["b"]), key(&["a"]), key(&["c"]), key(&["b"]), key(&["a"])];
    let selected = vec![true, true, true, false, true, true];
    assert_eq!(group_by_keys(&keys, &selected), vec![vec![0, 2, 5], vec![1, 4]]);
    assert_eq!(group_by_keys(&Vec::new(), &Vec::new()), Vec::<Vec<usize>>::new());
}

#[test]
fn commodity_rows_form_curves_and_buckets() {
    let rows = vec![
        row("Commodity", "Gold", "London", "3"),
        row("FX", "EURUSD", "", "1"),
        row("Commodity", "Gold", "London", "3"),
        row("Commodity", "Gold", "NewYork", "3"),
        row("Commodity", "WTI", "Cushing", "2"),
        row("Commodity", "Silver", "London", "3"),
        row("Commodity", "Gold", "London", "7"),
    ];
    let curves = commodity_curves(&rows);
    assert_eq!(curves, vec![vec![0, 2], vec![3], vec![4], vec![5], vec![6]]);
    let buckets = commodity_buckets(&rows, &curves);
    assert_eq!(buckets, vec![vec![0, 1, 3], vec![2], vec![4]]);
}

#[test]
fn no_commodity_rows_no_curves() {
    let rows = vec![row("Equity", "X", "", "1"), row("commodity", "Gold", "London", "1")];
    let curves = commodity_curves(&rows);
    assert!(curves.is_empty());
    assert!(commodity_buckets(&rows, &curves).is_empty());
}

#[test]
fn correlation_structure_of_a_bucket() {
    let rows = vec![
        row("Commodity", "Gold", "London", "3"),
        row("Commodity", "Gold", "NewYork", "3"),
        row("Commodity", "Silver", "London", "3"),
    ];
    let curves = commodity_curves(&rows);
    let bucket = vec![0, 1, 2];
    // spot of Gold/London, 1y of Gold/NewYork, 30y of Silver/London
    let kept = vec![0, 11 + 3, 22 + 10];
    let m = commodity_correlation_structure(&rows, &curves, &bucket, &kept);
    assert_eq!(m.len(), 3);
    assert!(m.iter().all(|line| line.len() == 3));
    assert_eq!(
        m[0][0],
        EntryPair { same_risk_factor: true, same_location: true, tenor_row: 0, tenor_col: 0 }
    );
    assert_eq!(
        m[0][1],
        EntryPair { same_risk_factor: true, same_location: false, tenor_row: 0, tenor_col: 3 }
    );
    assert_eq!(
        m[0][2],
        EntryPair { same_risk_factor: false, same_location: true, tenor_row: 0, tenor_col: 10 }
    );
    assert_eq!(
        m[2][1],
        EntryPair { same_risk_factor: false, same_location: false, tenor_row: 10, tenor_col: 3 }
    );
    for p in 0..3 {
        assert!(m[p][p].same_risk_factor && m[p][p].same_location);
        assert_eq!(m[p][p].tenor_row, m[p][p].tenor_col);
        for q in 0..3 {
            assert_eq!(m[p][q].same_risk_factor, m[q][p].same_risk_factor);
            assert_eq!(m[p][q].same_location, m[q][p].same_location);
            assert_eq!(m[p][q].tenor_row, m[q][p].tenor_col);
        }
    }
    assert!(commodity_correlation_structure(&rows, &curves, &bucket, &Vec::new()).is_empty());
}
