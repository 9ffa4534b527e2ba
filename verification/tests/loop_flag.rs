use macros::loop_control::{
    flag_or_stop, get_loop_state, set_loop_state, set_outcome, start_loop, stop_loop,
};
use std::sync::{Arc, Mutex};

#[test]
fn start_and_stop_set_the_flag() {
    let flag = Arc::new(Mutex::new(false));
    assert_eq!(start_loop(&flag), Ok(()));
    assert!(get_loop_state(&flag));
    assert_eq!(stop_loop(&flag), Ok(()));
    assert!(!get_loop_state(&flag));
    assert_eq!(set_loop_state(&flag, true), Ok(()));
    assert!(*flag.lock().unwrap());
}

#[test]
fn outcomes_map_to_results() {
    assert_eq!(set_outcome(Ok(())), Ok(()));
    assert_eq!(
        set_outcome(Err("poisoned lock".to_string())),
        Err("Failed to set loop state: poisoned lock".to_string())
    );
    assert!(flag_or_stop(Some(true)));
    assert!(!flag_or_stop(Some(false)));
    assert!(!flag_or_stop(None));
}
