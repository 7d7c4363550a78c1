use vstd::prelude::*;
use crate::lambda_gateway::LambdaRequest;
use crate::lambda_gateway::LambdaResponse;
use crate::lambda_gateway::LambdaResponseBuilder;
use crate::payloads::InputPayload;
use crate::payloads::OutputPayload;
use crate::payloads::json_output_view;
use crate::strutil::is_blank;
use crate::strutil::is_blank_seq;

verus! {

/// Relies on rand::random_range: a value drawn from the thread-local
/// generator, uniformly in [lo, hi). It panics on an empty range, so the
/// range must be non-empty; beyond the bounds nothing holds of the outcome.
#[verifier::external_body]
fn random_in_range(lo: u8, hi: u8) -> (r: u8)
    requires
        lo < hi,
    ensures
        lo <= r < hi,
{
    rand::random_range(lo..hi)
}

/// The name used in the greeting: a blank (empty or all-whitespace) name
/// falls back to a fixed placeholder.
pub open spec fn display_name(name: Seq<char>) -> Seq<char> {
    if is_blank_seq(name) {
        "Anonymous"@
    } else {
        name
    }
}

/// Returns the given name, or the placeholder when it is blank.
pub fn get_name_or_default(name: &str) -> (r: &str)
    ensures
        r@ == display_name(name@),
{
    if is_blank(name) {
        "Anonymous"
    } else {
        name
    }
}

/// The requested count clamped into the inclusive range [2, 20].
pub open spec fn clamped_count(count: u32) -> u32 {
    if count < 2 {
        2
    } else if count > 20 {
        20
    } else {
        count
    }
}

/// The greeting for a request under the given name.
pub open spec fn greeting_of(name: Seq<char>) -> Seq<char> {
    "Hi, "@ + display_name(name) + ". Your lucky numbers are:"@
}

/// Draws `count` lucky numbers, each in the inclusive range [1, 41].
fn make_numbers(count: u32) -> (r: Vec<u8>)
    ensures
        r@.len() == count,
        forall|i: int| 0 <= i < r@.len() ==> 1 <= #[trigger] r@[i] < 42,
{
    let mut numbers: Vec<u8> = Vec::new();
    let mut i: u32 = 0;
    while i < count
        invariant
            i <= count,
            numbers@.len() == i,
            forall|j: int| 0 <= j < numbers@.len() ==> 1 <= #[trigger] numbers@[j] < 42,
        decreases count - i,
    {
        numbers.push(random_in_range(1, 42));
        i += 1;
    }
    numbers
}

/// Handles one decoded request: clamps the requested count into [2, 20],
/// replaces a blank name by the placeholder, draws that many lucky numbers,
/// and assembles the JSON response. The status is 200, the body is never
/// base64-encoded, and the only header is "content-type: application/json";
/// the body is the output object's JSON text, fixed but for the numbers
/// drawn, which all lie in [1, 41].
pub fn lambda_handler(e: &LambdaRequest<InputPayload>) -> (r: LambdaResponse)
    ensures
        r@.status_code == 200,
        !r@.is_base64_encoded,
        r@.headers == Map::<Seq<char>, Seq<char>>::empty().insert(
            "content-type"@,
            "application/json"@,
        ),
        exists|numbers: Seq<u8>|
            {
                &&& r@.body == #[trigger] json_output_view(
                    greeting_of(e.payload_spec().name@),
                    numbers,
                )
                &&& numbers.len() == clamped_count(e.payload_spec().count)
                &&& forall|i: int| 0 <= i < numbers.len() ==> 1 <= #[trigger] numbers[i] < 42
            },
{
    let payload = e.body();
    let name = get_name_or_default(payload.name.as_str());
    let count = if payload.count < 2 {
        2
    } else if payload.count > 20 {
        20
    } else {
        payload.count
    };
    let mut message = String::from_str("Hi, ");
    message.append(name);
    message.append(". Your lucky numbers are:");
    let out = OutputPayload { message, numbers: make_numbers(count) };
    let response = LambdaResponseBuilder::new().with_status(200).with_json(&out).build();
    proof {
        assert(out.message@ == greeting_of(e.payload_spec().name@));
        assert(response@.body == json_output_view(
            greeting_of(e.payload_spec().name@),
            out.numbers@,
        ));
    }
    response
}

} // verus!
