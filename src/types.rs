pub mod access_definition;
pub mod access_route;
pub mod coin;
pub mod contract_info;
pub mod entity;
pub mod error;
pub mod msg;
pub mod request;
pub mod validation_cost;
pub mod validation_definition;
pub mod validator_configuration;
