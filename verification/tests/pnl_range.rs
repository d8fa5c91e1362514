use optionstratlib::model::decimal::Decimal;
use optionstratlib::pnl::PnLRange;
use std::collections::HashMap;

fn range(lower: i32, upper: i32) -> PnLRange {
    PnLRange { lower, upper }
}

#[test]
fn test_pnl_range_serialization() {
    let range = range(-10, 20);
    let serialized = serde_json::to_string(&range.label()).unwrap();
    assert_eq!(serialized, "\"[-10, 20)\"");
}

#[test]
fn test_pnl_range_as_hashmap_key() {
    let mut map = HashMap::new();
    map.insert(range(-10, 0).label(), rust_decimal::Decimal::new(25, 2));
    map.insert(range(0, 10).label(), rust_decimal::Decimal::new(50, 2));
    map.insert(range(10, 20).label(), rust_decimal::Decimal::new(25, 2));

    let serialized = serde_json::to_string(&map).unwrap();

    assert!(serialized.contains("\"[-10, 0)\""));
    assert!(serialized.contains("\"[0, 10)\""));
    assert!(serialized.contains("\"[10, 20)\""));
}

#[test]
fn test_pnl_range_in_complex_structure() {
    let mut distribution = HashMap::new();
    distribution.insert(range(-5, 5).label(), rust_decimal::Decimal::new(100, 2));
    let mut result = serde_json::Map::new();
    result.insert("name".to_string(), serde_json::Value::String("Test Simulation".to_string()));
    result.insert("distribution".to_string(), serde_json::to_value(&distribution).unwrap());

    let serialized = serde_json::to_string_pretty(&result).unwrap();

    assert!(serialized.contains("\"name\": \"Test Simulation\""));
    assert!(serialized.contains("\"distribution\": {"));
    assert!(serialized.contains("\"[-5, 5)\""));
}

#[test]
fn test_pnl_range_with_large_values() {
    let range = range(i32::MIN, i32::MAX);
    let serialized = serde_json::to_string(&range.label()).unwrap();
    assert_eq!(serialized, format!("\"[{}, {})\"", i32::MIN, i32::MAX));
}

#[test]
fn test_pnl_range_array_serialization() {
    let ranges = vec![range(-10, 0), range(0, 10), range(10, 20)];
    let labels: Vec<String> = ranges.iter().map(|r| r.label()).collect();
    let serialized = serde_json::to_string(&labels).unwrap();
    assert_eq!(serialized, "[\"[-10, 0)\",\"[0, 10)\",\"[10, 20)\"]");
}

#[test]
fn test_pnl_range_equality() {
    let range1 = range(-10, 20);
    let range2 = range(-10, 20);
    let range3 = range(0, 10);

    assert_eq!(range1, range2);
    assert_ne!(range1, range3);

    let mut map = HashMap::new();
    map.insert(range1.clone(), true);

    assert!(map.contains_key(&range2));
    assert!(!map.contains_key(&range3));
}

#[test]
fn new_stores_the_bounds() {
    let r = PnLRange::new(-100, 100);
    assert_eq!(r.lower, -100);
    assert_eq!(r.upper, 100);
}

#[test]
fn new_decimal_truncates_toward_zero() {
    let r = PnLRange::new_decimal(Decimal::new(-505, 1), Decimal::new(7525, 2));
    assert_eq!(r, PnLRange::new(-50, 75));
    let r = PnLRange::new_decimal(Decimal::new(-9, 1), Decimal::new(9, 1));
    assert_eq!(r, PnLRange::new(0, 0));
}

#[test]
fn label_writes_zero_and_single_digits() {
    assert_eq!(range(0, 7).label(), "[0, 7)");
    assert_eq!(range(-1, 1000).label(), "[-1, 1000)");
}
