//! A minimal HTTP service core: a lock-serialized request counter, a
//! data-driven route table with host-header guards, and the handlers'
//! response bodies, each stated and proved over sequence views.

mod handlers;
mod json;
mod router;
mod startup;
mod state;
mod text;

pub use handlers::{
    api_index_body, count_message, handle, handle_request, hello_body, index_body,
    lemma_user_json_literal, render, spec_count_message, spec_handled, spec_index_body,
    user_json_body, Payload, Reply,
};
pub use json::{
    json_escape, json_one_field_object, json_string, lemma_escape_plain, spec_escape,
    spec_escape_char, spec_hex_digit, spec_json_one_field, spec_json_string, spec_plain_char,
};
pub use router::{
    dispatch, lemma_dispatch_first_match, route_table, spec_api_host, spec_dispatch,
    spec_guard_ok, spec_route_matches, spec_route_table, Handler, Method, Request, Route,
};
pub use startup::{
    choose_bind_plan, default_bind_address, startup_state, BindPlan, COUNT_DELAY_SECS,
    KEEP_ALIVE_SECS, WORKER_COUNT,
};
pub use state::{
    counter_after, counter_returns, lemma_counter_after,
    lemma_counter_values_distinct_and_gapless, lemma_sequential_counter_values, spec_increment,
    AppState,
};
pub use text::{spec_decimal, spec_digit, u64_to_string};
