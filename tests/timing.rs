use peer_chat::timing::time_roundtrip;
use std::time::Duration;

#[test]
fn time_roundtrip_calls_once_and_measures() {
    let mut calls = 0;
    let d = time_roundtrip(|| {
        calls += 1;
        let mut x: u64 = 0;
        for i in 0..1000u64 {
            x = x.wrapping_add(i);
        }
        assert!(x > 0);
    });
    assert_eq!(calls, 1);
    assert!(d < Duration::from_secs(20));
}
