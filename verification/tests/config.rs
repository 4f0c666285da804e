use voicepaste::config::{default_engine_order, toggle_engine};
use voicepaste::models::SttEngine;

#[test]
fn default_engine_order_is_all_three() {
    assert_eq!(
        default_engine_order(),
        vec![SttEngine::Remote, SttEngine::Local, SttEngine::Native]
    );
}

#[test]
fn toggle_engine_appends_when_disabled() {
    let order = vec![SttEngine::Remote];
    assert_eq!(
        toggle_engine(&order, SttEngine::Local),
        vec![SttEngine::Remote, SttEngine::Local]
    );
}

#[test]
fn toggle_engine_appends_to_end_in_cascade() {
    let order = vec![SttEngine::Remote, SttEngine::Native];
    let order = toggle_engine(&order, SttEngine::Native);
    assert_eq!(order, vec![SttEngine::Remote]);
    let order = toggle_engine(&order, SttEngine::Local);
    assert_eq!(order, vec![SttEngine::Remote, SttEngine::Local]);
}

#[test]
fn toggle_engine_removes_when_enabled_keeps_order() {
    let order = vec![SttEngine::Remote, SttEngine::Local, SttEngine::Native];
    let next = toggle_engine(&order, SttEngine::Local);
    assert_eq!(next, vec![SttEngine::Remote, SttEngine::Native]);
}

#[test]
fn toggle_engine_refuses_to_drop_last_engine() {
    let order = vec![SttEngine::Remote];
    assert_eq!(
        toggle_engine(&order, SttEngine::Remote),
        vec![SttEngine::Remote]
    );
}

#[test]
fn toggle_engine_dedupes_after_remove() {
    let order = vec![SttEngine::Remote, SttEngine::Local, SttEngine::Local];
    let next = toggle_engine(&order, SttEngine::Local);
    assert_eq!(next, vec![SttEngine::Remote]);
}

#[test]
fn toggle_engine_round_trip_preserves_set() {
    let order = vec![SttEngine::Remote, SttEngine::Local, SttEngine::Native];
    let mid = toggle_engine(&order, SttEngine::Local);
    let end = toggle_engine(&mid, SttEngine::Local);
    assert_eq!(
        end,
        vec![SttEngine::Remote, SttEngine::Native, SttEngine::Local]
    );
}

#[test]
fn toggling_an_absent_engine_twice_restores_the_cascade() {
    let order = vec![SttEngine::Native, SttEngine::Remote];
    let on = toggle_engine(&order, SttEngine::Local);
    assert_eq!(on, vec![SttEngine::Native, SttEngine::Remote, SttEngine::Local]);
    assert_eq!(toggle_engine(&on, SttEngine::Local), order);
}

#[test]
fn toggle_engine_keeps_a_cascade_of_one_repeated_engine() {
    let order = vec![SttEngine::Local, SttEngine::Local];
    assert_eq!(toggle_engine(&order, SttEngine::Local), order);
}
