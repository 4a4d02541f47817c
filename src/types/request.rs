pub mod settings_update;
pub mod validation_definition;
pub mod validation_request;
pub mod validator_configuration;
