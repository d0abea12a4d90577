//! Four request queues feeding one worker, which serves them in priority
//! order: the first queue before the second, and so on.

pub mod worker;
