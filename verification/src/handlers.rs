//! The route handlers' observable behaviour: each handler's response
//! body as a function of the state it reads, the reply record an HTTP
//! layer sends back, and the top-level step from a dispatched handler
//! to its reply.

use vstd::prelude::*;

use crate::json::{
    json_one_field_object, lemma_escape_plain, spec_json_one_field, spec_plain_char,
};
use crate::router::{spec_dispatch, Handler, Request, Route};
use crate::state::{spec_increment, AppState};
use crate::text::{spec_decimal, u64_to_string};

verus! {

/// The body of the greeting at `/`, as a function of the startup
/// samples alone: the counter plays no part in it.
pub open spec fn spec_index_body(name: Seq<char>, logical: nat, physical: nat) -> Seq<char> {
    "Hello "@ + name + "! I have "@ + spec_decimal(logical) + " logical cpus, "@ + spec_decimal(
        physical,
    ) + " cpus"@
}

/// The body of the counter report for counter value `v`.
pub open spec fn spec_count_message(v: nat) -> Seq<char> {
    "mutex counter: "@ + spec_decimal(v)
}

/// Build the greeting body for `/`.
pub fn index_body(app_name: &str, logical: usize, physical: usize) -> (r: String)
    ensures
        r@ == spec_index_body(app_name@, logical as nat, physical as nat),
{
    let mut out = String::from_str("Hello ");
    out.append(app_name);
    out.append("! I have ");
    out.append(u64_to_string(logical as u64).as_str());
    out.append(" logical cpus, ");
    out.append(u64_to_string(physical as u64).as_str());
    out.append(" cpus");
    proof {
        assert(out@ =~= spec_index_body(app_name@, logical as nat, physical as nat));
    }
    out
}

/// Build the counter report body for counter value `v`.
pub fn count_message(v: u64) -> (r: String)
    ensures
        r@ == spec_count_message(v as nat),
{
    let mut out = String::from_str("mutex counter: ");
    out.append(u64_to_string(v).as_str());
    proof {
        assert(out@ =~= spec_count_message(v as nat));
    }
    out
}

/// The fixed text at `/api/hello`.
pub fn hello_body() -> (r: String)
    ensures
        r@ == "Hello world again!"@,
{
    String::from_str("Hello world again!")
}

/// The fixed text at `/api`.
pub fn api_index_body() -> (r: String)
    ensures
        r@ == "API index here!"@,
{
    String::from_str("API index here!")
}

/// The JSON record at `/api/user`.
pub fn user_json_body() -> (r: String)
    ensures
        r@ == spec_json_one_field("name"@, "chenxi"@),
{
    json_one_field_object("name", "chenxi")
}

/// The JSON record at `/api/user` is, character for character, the
/// document `{"name":"chenxi"}`: neither the key nor the value needs
/// any escape.
pub proof fn lemma_user_json_literal()
    ensures
        spec_json_one_field("name"@, "chenxi"@) == "{\"name\":\"chenxi\"}"@,
{
    reveal_strlit("name");
    reveal_strlit("chenxi");
    reveal_strlit("{\"name\":\"chenxi\"}");
    assert(forall|i: int| 0 <= i < "name"@.len() ==> spec_plain_char(#[trigger] "name"@[i]));
    assert(forall|i: int| 0 <= i < "chenxi"@.len() ==> spec_plain_char(#[trigger] "chenxi"@[i]));
    lemma_escape_plain("name"@);
    lemma_escape_plain("chenxi"@);
    assert(spec_json_one_field("name"@, "chenxi"@) =~= "{\"name\":\"chenxi\"}"@);
}

/// What a handler hands back: plain text or a JSON document.
pub enum Payload {
    Text(String),
    Json(String),
}

/// A response ready for the HTTP layer to send.
pub struct Reply {
    pub status: u16,
    pub content_type: String,
    pub body: String,
}

/// Turn a payload into a well-formed OK reply with its content type.
pub fn render(p: Payload) -> (r: Reply)
    ensures
        r.status == 200,
        p matches Payload::Text(b) ==> r.body == b && r.content_type@ == "text/plain; charset=utf-8"@,
        p matches Payload::Json(b) ==> r.body == b && r.content_type@ == "application/json"@,
{
    match p {
        Payload::Text(b) => Reply {
            status: 200,
            content_type: String::from_str("text/plain; charset=utf-8"),
            body: b,
        },
        Payload::Json(b) => Reply {
            status: 200,
            content_type: String::from_str("application/json"),
            body: b,
        },
    }
}

/// Everything the reply of handler `h` owes: status 200 always; only
/// the counter handler touches the state, and then only the counter;
/// each handler's body pinned exactly; JSON content type exactly for
/// the JSON record.
pub open spec fn spec_handled(h: Handler, pre: AppState, post: AppState, r: Reply) -> bool {
    &&& r.status == 200
    &&& h != Handler::Count ==> post == pre
    &&& h == Handler::Count ==> {
        &&& post.counter == spec_increment(pre.counter as int)
        &&& post.app_name == pre.app_name
        &&& post.logical_cpus == pre.logical_cpus
        &&& post.physical_cpus == pre.physical_cpus
        &&& r.body@ == spec_count_message(post.counter as nat)
    }
    &&& h == Handler::Index ==> r.body@ == spec_index_body(
        pre.app_name@,
        pre.logical_cpus as nat,
        pre.physical_cpus as nat,
    )
    &&& h == Handler::ApiIndex ==> r.body@ == "API index here!"@
    &&& h == Handler::Hello ==> r.body@ == "Hello world again!"@
    &&& h == Handler::User ==> r.body@ == spec_json_one_field("name"@, "chenxi"@)
    &&& if h == Handler::User {
        r.content_type@ == "application/json"@
    } else {
        r.content_type@ == "text/plain; charset=utf-8"@
    }
}

/// Run handler `h` against the state and produce its reply. Only the
/// counter handler needs headroom on the counter; every other handler
/// succeeds on any state.
pub fn handle(h: Handler, state: &mut AppState) -> (r: Reply)
    requires
        h == Handler::Count ==> old(state).counter < u64::MAX,
    ensures
        spec_handled(h, *old(state), *final(state), r),
{
    match h {
        Handler::Index => render(
            Payload::Text(
                index_body(state.app_name.as_str(), state.logical_cpus, state.physical_cpus),
            ),
        ),
        Handler::ApiIndex => render(Payload::Text(api_index_body())),
        Handler::Count => {
            let v = state.increment_counter();
            render(Payload::Text(count_message(v)))
        },
        Handler::Hello => render(Payload::Text(hello_body())),
        Handler::User => render(Payload::Json(user_json_body())),
    }
}

/// One whole request step: route it, and if a route matches, run its
/// handler; a request matching no route changes nothing and gets no
/// reply (the HTTP layer then sends its default not-found response).
pub fn handle_request(routes: &Vec<Route>, req: &Request, state: &mut AppState) -> (r: Option<
    Reply,
>)
    requires
        spec_dispatch(routes@, *req) == Option::Some(Handler::Count) ==> old(state).counter
            < u64::MAX,
    ensures
        r is Some <==> spec_dispatch(routes@, *req) is Some,
        spec_dispatch(routes@, *req) is None ==> *final(state) == *old(state),
        spec_dispatch(routes@, *req) matches Some(h) ==> r matches Some(reply)
            && spec_handled(h, *old(state), *final(state), reply),
{
    match crate::router::dispatch(routes, req) {
        Option::None => Option::None,
        Option::Some(h) => Option::Some(handle(h, state)),
    }
}

} // verus!
