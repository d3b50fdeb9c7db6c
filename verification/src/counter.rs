pub mod counter;
pub mod decrementing_counter;
pub mod incrementing_counter;
pub mod irq_counter_info;
pub mod when_disabled_prevent;
