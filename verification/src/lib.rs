//! Verified core of a digit-classification service.
//!
//! The service answers 28x28 grayscale image classification requests. Each
//! request is routed to a long-lived per-identity actor that lazily loads
//! serialized model weights from a blob store on its first request, caches
//! them for its whole lifetime, and serves every request through a fixed
//! normalize / forward / softmax pipeline.
//!
//! This crate holds the part of that service that is pure decision logic:
//! the input shape contract, the actor lifecycle state machine, the routing
//! policy, the probability-vector handling and the error taxonomy. The
//! floating-point tensor work (normalization arithmetic, the forward pass and
//! softmax) is performed by an opaque tensor-engine collaborator outside this
//! crate; pixel intensities and probabilities cross the boundary as `u32`
//! bit patterns of the engine's 32-bit values.

pub mod actor;
pub mod errors;
pub mod input;
pub mod probs;
pub mod router;
