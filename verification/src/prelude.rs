//! The names most programs need, in one import.

pub use crate::add_data::AddData;
pub use crate::client::ChannelClient;
pub use crate::endpoint::Endpoint;
pub use crate::endpoint::EndpointExt;
pub use crate::envelope::Body;
pub use crate::envelope::Param;
pub use crate::error::ChannelError;
pub use crate::extensions::TypeTag;
pub use crate::handler::Handler;
pub use crate::request::data::Data;
pub use crate::request::json::Json;
pub use crate::request::param::ReqParam;
pub use crate::request::Request;
pub use crate::response::IntoResponse;
pub use crate::response::Response;
pub use crate::route::Route;
pub use crate::server::ChannelService;
