//! A small serverless request/response marshaling library: a nested-JSON
//! decoder for double-encoded event bodies, typed request and response
//! envelopes, a response builder with header normalization, and a demo
//! handler that produces a bounded list of random numbers.

pub mod handler;
pub mod json_deserializer;
pub mod json_serializer;
pub mod lambda_gateway;
pub mod payloads;
pub mod strutil;
