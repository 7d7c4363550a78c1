use vstd::prelude::*;
use crate::lambda_gateway::LambdaRequest;
use crate::payloads::InputPayload;

verus! {

/// What parsing `s` as a JSON object and reading the string field `str_key`
/// and the unsigned integer field `int_key` yields: the two field values when
/// `s` is valid JSON carrying both fields with those types (the integer one
/// within u32 range), and nothing otherwise. A function of the text alone;
/// serde_json's grammar is the reference.
pub uninterp spec fn json_two_field_of(s: Seq<char>, str_key: Seq<char>, int_key: Seq<char>) -> Option<
    (Seq<char>, u32),
>;

/// Relies on serde_json::from_str::<Value>, Value::get, Value::as_str and
/// Value::as_u64: parses `s` as JSON and extracts a string field and an
/// unsigned integer field. `Err(Some(_))` carries serde_json's description of
/// a syntax error; `Err(None)` marks a document of the wrong shape.
#[verifier::external_body]
fn parse_two_string_int(s: &str, str_key: &str, int_key: &str) -> (r: Result<
    (String, u32),
    Option<String>,
>)
    ensures
        (r matches Ok(p) ==> json_two_field_of(s@, str_key@, int_key@) == Some((p.0@, p.1))),
        (r is Err ==> json_two_field_of(s@, str_key@, int_key@) is None),
{
    let v: serde_json::Value = match serde_json::from_str(s) {
        Ok(v) => v,
        Err(e) => return Err(Some(e.to_string())),
    };
    let text = match v.get(str_key).and_then(serde_json::Value::as_str) {
        Some(x) => x.to_owned(),
        None => return Err(None),
    };
    let num = match v.get(int_key).and_then(serde_json::Value::as_u64) {
        Some(x) => x,
        None => return Err(None),
    };
    u32::try_from(num).map(|n| (text, n)).map_err(|_| None)
}

/// What reading the string field `key` of the JSON document `s` yields: the
/// field's text when `s` is valid JSON with such a field, nothing otherwise.
/// A function of the text alone; serde_json's grammar is the reference.
pub uninterp spec fn json_str_field_of(s: Seq<char>, key: Seq<char>) -> Option<Seq<char>>;

/// Relies on serde_json::from_str::<Value>, Value::get and Value::as_str:
/// parses `s` as JSON and extracts one string field.
#[verifier::external_body]
fn parse_string_field(s: &str, key: &str) -> (r: Option<String>)
    ensures
        (r matches Some(x) ==> json_str_field_of(s@, key@) == Some(x@)),
        (r is None ==> json_str_field_of(s@, key@) is None),
{
    match serde_json::from_str::<serde_json::Value>(s) {
        Ok(v) => v.get(key).and_then(serde_json::Value::as_str).map(str::to_owned),
        Err(_) => None,
    }
}

/// A failed decode: the body was missing, not valid JSON, or of the wrong
/// shape for the payload. Carries a description of the failure; every decode
/// failure is terminal for the invocation.
#[derive(Debug)]
pub struct DecodeError {
    message: String,
}

impl DecodeError {
    /// The stored description.
    pub closed spec fn message_spec(self) -> Seq<char> {
        self.message@
    }

    /// A human-readable description of what went wrong.
    pub fn describe(&self) -> (r: &str)
        ensures
            r@ == self.message_spec(),
    {
        self.message.as_str()
    }
}

/// Decodes a JSON text into the demo input payload: the document must be an
/// object with a "name" string field and a "count" unsigned integer field.
/// Succeeds exactly on such texts, and returns the value the text encodes;
/// everything else is a decode error, and no payload is produced.
pub fn deserialize(s: &str) -> (r: Result<InputPayload, DecodeError>)
    ensures
        (r matches Ok(p) ==> json_two_field_of(s@, "name"@, "count"@) == Some((p.name@, p.count))),
        (r is Ok <==> json_two_field_of(s@, "name"@, "count"@) is Some),
{
    match parse_two_string_int(s, "name", "count") {
        Ok((name, count)) => Ok(InputPayload { name, count }),
        Err(Some(message)) => Err(DecodeError { message }),
        Err(None) => Err(
            DecodeError { message: String::from_str("payload does not match the expected shape") },
        ),
    }
}

/// Builds a request envelope from the raw event text: the event's "body"
/// field is read as a string, and its contents are decoded as the payload.
/// Decode success and envelope construction are atomic: either both fields
/// decode and an envelope holding exactly the encoded payload is returned,
/// or a decode error is returned and no envelope exists.
pub fn from_event(event: &str) -> (r: Result<LambdaRequest<InputPayload>, DecodeError>)
    ensures
        match json_str_field_of(event@, "body"@) {
            Some(b) => {
                &&& (r matches Ok(req) ==> json_two_field_of(b, "name"@, "count"@) == Some(
                    (req.payload_spec().name@, req.payload_spec().count),
                ))
                &&& (r is Ok <==> json_two_field_of(b, "name"@, "count"@) is Some)
            },
            None => r is Err,
        },
{
    match parse_string_field(event, "body") {
        Some(body) => match deserialize(body.as_str()) {
            Ok(p) => Ok(LambdaRequest::new(p)),
            Err(e) => Err(e),
        },
        None => Err(
            DecodeError { message: String::from_str("event carries no body field with a string") },
        ),
    }
}

} // verus!
