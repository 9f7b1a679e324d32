//! The mock clock.

use auto_id::clock::{MockTime, MOCK_NOW};

#[test]
fn mock_time_stands_still() {
    assert_eq!(MockTime::now(), 1_711_367_658_200);
    assert_eq!(MockTime::now(), MOCK_NOW);
    assert_eq!(MockTime::now(), MockTime::now());
}
