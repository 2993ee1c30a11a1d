//! Client library for the Papago translation service: the language codes, the
//! request and response models, the credentials, and the pure steps around the one
//! HTTP exchange (building the form-encoded request, reading the decoded reply).

/// Request and response models, and the language codes.
pub mod model;

/// Credentials.
pub mod config;

/// Endpoints, errors, and the steps before and after the HTTP exchange.
pub mod api;

/// Turning command-line values into a request.
pub mod argparse;

pub use self::api::conclude;
pub use self::api::prepare_request;
pub use self::api::Error;
pub use self::api::NMT_URL;
pub use self::api::SMT_URL;
pub use self::model::Lang;
pub use self::model::PapagoReq;
