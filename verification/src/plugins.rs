//! The interceptors.  Each wraps one pipeline stage and contributes
//! some of the hook kinds — request transform, response transform,
//! future wrapper, stream wrapper — defaulting to passing the inner
//! stage through untouched.

pub mod catch_invalid_type_error;
pub mod catch_query_planner_error;
pub mod change_status_code;
pub mod response_stream_context_propagation;
pub mod test_plugin;
