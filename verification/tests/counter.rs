use std::sync::Mutex;

use post_service::api::post::{get_post, post_counter, AppState};
use post_service::api::reply::{Body, HttpReply};
use post_service::repository::table::PostTable;

#[test]
fn listings_of_several_callers_behind_one_lock_are_all_counted() {
    let state = Mutex::new(AppState::new());
    let mut tables = vec![PostTable::new(), PostTable::new(), PostTable::new()];
    let rounds = 250;
    for _ in 0..rounds {
        for table in tables.iter_mut() {
            let mut calls = state.lock().unwrap();
            get_post(table, &mut calls);
        }
    }
    let calls = state.lock().unwrap();
    assert_eq!(calls.read(), 750);
    assert_eq!(post_counter(&calls), HttpReply { status: 200, body: Body::JsonNumber(750) });
}

#[test]
fn reading_the_counter_leaves_it_as_it_is() {
    let mut state = AppState::new();
    state.increment();
    state.increment();
    assert_eq!(state.read(), 2);
    assert_eq!(state.read(), 2);
    assert_eq!(state, {
        let mut other = AppState::new();
        other.increment();
        other.increment();
        other
    });
}
