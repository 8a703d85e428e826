pub mod exchange_request;
pub mod job_queue;
pub mod response;
pub mod thread_pool;
pub mod worker;
