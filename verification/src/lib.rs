//! Verified core of the Eneo REST service: request validation, SQL statement
//! construction, the decisions that turn database and crypto outcomes into
//! service results, token claims and HTTP response bodies.

pub mod text;
pub mod ids;
pub mod timestamp;
pub mod http;
pub mod sign_up_service_impl;
pub mod db;
pub mod api_client_service_impl;
pub mod categories_service_impl;
pub mod company_service_impl;
pub mod geofencing_services_impl;
pub mod geospatial_computations;
pub mod jwt_service_impl;
pub mod auth;
pub mod handlers;
