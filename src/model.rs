//! Records that the service sends back.
use vstd::prelude::*;
use crate::date::{Date, Timestamp};

verus! {

/// The error report that comes with a rejected request.
#[derive(Debug, Clone, PartialEq, Eq, Hash, Default)]
pub struct ApiError {
    /// The status code as text, e.g. "400".
    pub code: String,
    pub errors: Vec<Error>,
}

/// One message of an error report.
#[derive(Debug, Clone, PartialEq, Eq, Hash, Default)]
pub struct Error {
    pub message: String,
}

/// The office of the account.
#[derive(Debug, Clone, PartialEq, Eq, Hash, Default)]
pub struct Office {
    pub name: String,
    pub zip: String,
    pub prefecture: String,
    pub address1: String,
    pub address2: String,
    pub tel: String,
    pub fax: String,
}

/// A page of partners.
#[derive(Debug, Clone, PartialEq, Eq, Hash)]
pub struct Partners {
    pub meta: Meta,
    pub partners: Vec<Partner>,
}

/// Where a page stands in a listing.
#[derive(Debug, Clone, PartialEq, Eq, Hash, Default)]
pub struct Meta {
    pub total_count: u32,
    pub total_pages: u32,
    pub current_page: String,
    pub per_page: String,
}

/// A business partner.
#[derive(Debug, Clone, PartialEq, Eq, Hash)]
pub struct Partner {
    pub id: String,
    pub code: Option<String>,
    pub name: String,
    pub name_kana: Option<String>,
    pub name_suffix: String,
    pub memo: Option<String>,
    pub departments: Vec<Department>,
    pub created_at: Timestamp,
    pub updated_at: Timestamp,
}

/// A department of a partner.
#[derive(Debug, Clone, PartialEq, Eq, Hash, Default)]
pub struct Department {
    pub id: String,
    pub zip: Option<String>,
    pub tel: Option<String>,
    pub prefecture: String,
    pub address1: Option<String>,
    pub address2: Option<String>,
    pub person_name: Option<String>,
    pub person_title: Option<String>,
    pub name: Option<String>,
    pub email: Option<String>,
    pub cc_emails: Option<String>,
}

/// A page of billings.
#[derive(Debug, Clone, PartialEq, Eq, Hash)]
pub struct Billings {
    pub meta: Meta,
    pub billings: Vec<Billing>,
}

/// A billing (invoice).
#[derive(Debug, Clone, PartialEq, Eq, Hash)]
pub struct Billing {
    pub id: String,
    pub user_id: String,
    pub partner_id: String,
    pub department_id: String,
    pub partner_name: String,
    pub partner_name_suffix: String,
    pub partner_detail: String,
    pub member_id: String,
    pub member_name: String,
    pub office_name: String,
    pub office_detail: String,
    pub title: String,
    pub excise_price: u32,
    pub deduct_price: u32,
    pub subtotal: u32,
    pub memo: String,
    pub payment_condition: String,
    pub total_price: u32,
    pub created_at: Timestamp,
    pub updated_at: Timestamp,
    pub billing_number: String,
    pub note: String,
    pub document_name: String,
    pub tags: Vec<String>,
    pub status: Vec<Status>,
    pub items: Vec<BillingItem>,
}

/// How far a billing has gone: posting, mail, download and payment.
#[derive(Debug, Clone, PartialEq, Eq, Hash, Default)]
pub struct Status {
    pub posting: String,
    pub email: String,
    pub download: String,
    pub payment: String,
}

/// A line of a billing.
#[derive(Debug, Clone, PartialEq, Eq, Hash)]
pub struct BillingItem {
    pub id: String,
    pub code: String,
    pub name: String,
    pub detail: String,
    pub quantity: u32,
    pub unit_price: u32,
    pub unit: String,
    pub price: u32,
    pub display_order: u32,
    pub excise: bool,
    pub created_at: Timestamp,
    pub updated_at: Timestamp,
}

/// The bytes of a billing's PDF document.
#[derive(Debug, Clone, PartialEq, Eq, Hash, Default)]
pub struct BillingPdf(pub Vec<u8>);

/// The result of a billing search.
#[derive(Debug, Clone, PartialEq, Eq, Hash)]
pub struct BillingQueryResponse {
    pub meta: BillingQueryMeta,
    pub billings: Vec<Billing>,
}

/// Where a page of search results stands, with the search's condition.
#[derive(Debug, Clone, PartialEq, Eq, Hash)]
pub struct BillingQueryMeta {
    pub total_count: u32,
    pub total_pages: u32,
    pub current_page: u32,
    pub per_page: u32,
    pub condition: Condition,
}

/// The condition of a billing search.
#[derive(Debug, Clone, PartialEq, Eq, Hash)]
pub struct Condition {
    pub query: String,
    pub range_key: String,
    pub from: Date,
    pub to: Date,
}

/// The items of the account.
#[derive(Debug, Clone, PartialEq, Eq, Hash)]
pub struct Items {
    pub meta: Meta,
    pub items: Vec<Item>,
}

/// An item that billings can list.
#[derive(Debug, Clone, PartialEq, Eq, Hash)]
pub struct Item {
    pub id: String,
    pub code: String,
    pub name: String,
    pub detail: String,
    pub quantity: u32,
    pub unit_price: u32,
    pub unit: String,
    pub price: u32,
    pub excise: bool,
    pub created_at: Timestamp,
    pub updated_at: Timestamp,
}

/// A page of sent documents.
#[derive(Debug, Clone, PartialEq, Eq, Hash, Default)]
pub struct SentHistories {
    pub meta: Meta,
    pub sent_history_list: Vec<SentHistory>,
}

/// One document sent.
#[derive(Debug, Clone, PartialEq, Eq, Hash, Default)]
pub struct SentHistory {
    pub operator_id: String,
    /// How it was sent; `type` on the wire.
    pub type_: String,
    pub document_type: String,
    pub document_id: String,
    pub from: String,
    pub to: String,
    pub cc: String,
    pub sent_at: String,
}

} // verus!
