use vstd::prelude::*;
use crate::lambda_gateway::JsonBody;
use crate::json_serializer::json_quote;
use crate::json_serializer::json_string_of;
use crate::json_serializer::json_u8_arr;
use crate::json_serializer::json_u8_array;

verus! {

/// The demo request payload: a display name and a requested amount of
/// lucky numbers.
#[derive(Debug)]
pub struct InputPayload {
    pub name: String,
    pub count: u32,
}

/// The demo response payload: a greeting and the generated numbers.
#[derive(Debug)]
pub struct OutputPayload {
    pub message: String,
    pub numbers: Vec<u8>,
}

/// The JSON object that encodes an output payload: a "message" string field
/// followed by a "numbers" array field, in serde_json's compact style.
pub open spec fn json_output_view(message: Seq<char>, numbers: Seq<u8>) -> Seq<char> {
    "{\"message\":"@ + json_string_of(message) + ",\"numbers\":"@ + json_u8_arr(numbers) + "}"@
}

impl JsonBody for OutputPayload {
    /// The JSON object text for this payload.
    open spec fn json_view(&self) -> Seq<char> {
        json_output_view(self.message@, self.numbers@)
    }

    /// Serializes the payload to its JSON object text.
    fn to_json(&self) -> (r: String) {
        let mut out = String::from_str("{\"message\":");
        let quoted = json_quote(&self.message);
        out.append(quoted.as_str());
        out.append(",\"numbers\":");
        let arr = json_u8_array(&self.numbers);
        out.append(arr.as_str());
        out.append("}");
        proof {
            assert(out@ =~= json_output_view(self.message@, self.numbers@));
        }
        out
    }
}

} // verus!
