pub mod constants;
pub mod create_request_utilities;
pub mod event_attributes;
pub mod fees;
pub mod functions;
pub mod helpers;
pub mod response;
pub mod text;
pub mod version;
