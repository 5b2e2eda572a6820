pub mod checkers;
pub mod digest;
pub mod dummies;
pub mod error;
pub mod escape;
pub mod functions;
pub mod request;
pub mod response;
pub mod run;
pub mod text;
pub mod trace;
pub mod upload;
pub mod workspace;
