//! Request translation and response mapping for a small HTTP front-end that
//! forwards an image-generation prompt to a remote text-to-image prediction
//! service and returns the generated image.
//!
//! The crate holds the decisions of that front-end as verified functions on
//! plain values: how either inbound shape becomes one prediction request, how
//! the outcome of the prediction call becomes a response, and which
//! cache-control header every response carries. The network round trip itself
//! and the HTTP server belong to the program around it.

pub mod config;
pub mod headers;
pub mod request;
pub mod response;

pub use config::{ConfigError, Settings};
pub use headers::cache_control;
pub use request::{
    generate_image_path, generate_image_post, imagen_model, GenerateImageParams,
    GenerateImagePathParams, GenerationRequest, OutputOptions, PredictionParameters,
    PredictionRequest, PromptInstance,
};
pub use response::{image_response, HttpResponse, Prediction};
