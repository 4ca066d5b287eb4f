//! A typed client for an invoicing REST API: request descriptors with their
//! exact URL, headers and JSON payload, and the rules that turn a reply into
//! one of four outcomes (success, service error, transport failure, protocol
//! violation).
pub mod client;
pub mod date;
pub mod dispatch;
pub mod json;
pub mod model;
pub mod request;
pub mod text;

pub use client::Client;
pub use date::{Date, Timestamp};
pub use dispatch::{
    conclude, on_reply, query_string, role_for_status, BodyRole, Decoded, Expect, HttpRequest,
    Method, Next, Outcome, ProtocolError, Reply, TransportError,
};
pub use json::JsonObject;
pub use model::{
    ApiError, Billing, BillingItem, BillingPdf, BillingQueryMeta, BillingQueryResponse, Billings,
    Condition, Department, Error, Item, Items, Meta, Office, Partner, Partners, SentHistories,
    SentHistory, Status,
};
pub use request::{
    NewBilling, NewBillingItem, NewItem, NewPartner, UpdateBilling, UpdateBillingItem,
    UpdateDepartmentInfo, UpdateItem, UpdateOffice, UpdatePartner,
};
