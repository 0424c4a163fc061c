pub mod channel;
pub mod feed_item;
pub mod pipeline;
pub mod source;
