//! A verified model of the logic of a GDK game runtime replacement: the
//! asynchronous block protocol, task queues, delegated runtime loading,
//! runtime class dispatch, the answers of the runtime's objects, and the
//! data transformations behind its API surface and its tools.
pub mod results;
pub mod text;
pub mod xasync;
pub mod threading;
pub mod delegate;
pub mod com;
pub mod user;
pub mod stub;
pub mod game;
pub mod authenticator;
pub mod xbox_utils;
pub mod prototypes;
pub mod gdk_docs;
pub mod input_log;
pub mod xerror;
pub mod xgameactivation;
pub mod xgamestreaming;
pub mod xnetworking;
pub mod xpackage;
pub mod xstore;
pub mod xsystem;
