pub mod arc;
pub mod bounded_queue;
pub mod buffer;
pub mod channel;
pub mod mutex;
pub mod protocol;
pub mod safe_vec;
pub mod semaphore;
