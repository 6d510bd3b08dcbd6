pub mod batch;
pub mod errors;
pub mod jobs;
pub mod login;
pub mod request;
pub mod retry;
pub mod stream;
pub mod translator;
