pub mod entity;
pub mod indexed_store;
pub mod request;
pub mod state;
pub mod validation_definition;
pub mod validator_configuration;
