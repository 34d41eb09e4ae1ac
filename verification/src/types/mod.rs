//! The plain records of the Bot API that requests carry and replies hold.

pub mod chat_id;
pub mod document;
pub mod message;
pub mod order_info;
pub mod photo_size;
pub mod shipping_address;
pub mod unit_true;
pub mod user;

pub use chat_id::ChatId;
pub use document::Document;
pub use message::Message;
pub use order_info::OrderInfo;
pub use photo_size::PhotoSize;
pub use shipping_address::ShippingAddress;
pub use unit_true::True;
pub use user::User;
