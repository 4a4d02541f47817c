pub mod entity;
pub mod update_settings;
pub mod validation_definition;
pub mod validation_request;
pub mod validator_configuration;
