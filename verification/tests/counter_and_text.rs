use papi::AppState;

#[test]
fn sequential_counts_are_one_to_n() {
    let mut state = AppState::new(String::from("papi"), 8, 4);
    let mut expected: u64 = 1;
    while expected <= 5 {
        let v = state.increment_counter();
        assert_eq!(v, expected);
        expected += 1;
    }
    assert_eq!(state.counter, 5);
}

#[test]
fn concurrent_style_increments_never_collide() {
    let mut state = AppState::new(String::from("papi"), 8, 4);
    let a = state.increment_counter();
    let b = state.increment_counter();
    let c = state.increment_counter();
    assert_ne!(a, b);
    assert_ne!(b, c);
    assert_ne!(a, c);
    assert_eq!(b, a + 1);
    assert_eq!(c, b + 1);
}

#[test]
fn new_state_starts_at_zero() {
    let state = AppState::new(String::from("papi"), 2, 1);
    assert_eq!(state.counter, 0);
    assert_eq!(state.app_name, "papi");
    assert_eq!(state.logical_cpus, 2);
    assert_eq!(state.physical_cpus, 1);
}

#[test]
fn startup_state_samples_cpu_counts() {
    let state = papi::startup_state(String::from("papi"));
    assert_eq!(state.counter, 0);
    assert_eq!(state.app_name, "papi");
    assert!(state.logical_cpus >= 1);
    assert!(state.physical_cpus >= 1);
}

#[test]
fn decimal_rendering_exact() {
    assert_eq!(papi::u64_to_string(0), "0");
    assert_eq!(papi::u64_to_string(7), "7");
    assert_eq!(papi::u64_to_string(10), "10");
    assert_eq!(papi::u64_to_string(12345), "12345");
    assert_eq!(papi::u64_to_string(u64::MAX), "18446744073709551615");
}

#[test]
fn count_message_exact() {
    assert_eq!(papi::count_message(1), "mutex counter: 1");
    assert_eq!(papi::count_message(42), "mutex counter: 42");
}

#[test]
fn index_body_reports_name_and_cpus() {
    let body = papi::index_body("papi", 8, 4);
    assert_eq!(body, "Hello papi! I have 8 logical cpus, 4 cpus");
    assert!(body.contains("papi"));
}

#[test]
fn fixed_bodies_exact() {
    assert_eq!(papi::hello_body(), "Hello world again!");
    assert_eq!(papi::api_index_body(), "API index here!");
}

#[test]
fn server_settings() {
    assert_eq!(papi::WORKER_COUNT, 4);
    assert_eq!(papi::KEEP_ALIVE_SECS, 75);
    assert_eq!(papi::COUNT_DELAY_SECS, 10);
}

#[test]
fn bind_plan_prefers_inherited_socket() {
    let plan = papi::choose_bind_plan(true, papi::default_bind_address());
    assert!(matches!(plan, papi::BindPlan::UseInherited));
}

#[test]
fn bind_plan_binds_fresh_address() {
    let plan = papi::choose_bind_plan(false, papi::default_bind_address());
    match plan {
        papi::BindPlan::BindTo(addr) => assert_eq!(addr, "127.0.0.1:3000"),
        papi::BindPlan::UseInherited => panic!("expected a fresh bind"),
    }
}
