//! A key-value service over tables of hashes: the schema and value model,
//! the storage contract with an in-memory backend, the command dispatcher,
//! the frame codec and the per-connection session decisions.
pub mod error;
pub mod network;
pub mod pb;
pub mod service;
pub mod storage;

pub use error::{ConvertTarget, KvError};
pub use network::frame::{
    decode_frame, decode_header, encode_frame, encode_header, COMPRESSION_LIMIT, LEN_LEN, MAX_FRAME,
};
pub use network::stream::ProstStream;
pub use network::{
    client_outcome, serve_event, Inbound, ProstClientStream, ProstServerStream, SessionAction,
};
pub use pb::{
    CommandRequest, CommandResponse, Hdel, Hexist, Hget, Hgetall, Hmdel, Hmexist, Hmget, Hmset,
    Hset, Kvpair, RequestData, ResponseModel, Value, ValueKind, ValueModel,
};

pub use service::{
    dispatch, dispatch_read, exists_or_empty, exists_response, get_response, pairs_response,
    prior_value_response, value_or_empty, CommandService, QueryService, Service,
};
pub use storage::memory::MemTable;
pub use storage::{Storage, StorageIter};
