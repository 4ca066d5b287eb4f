//! Records sent to the service, each written as a JSON object in which an
//! optional field that is not set does not appear.
use vstd::prelude::*;
use crate::date::Date;
use crate::json::{
    array_json, array_text, bool_json, bool_text, bool_value, date_value, json_items, member,
    members_of, object_json, object_text, opt_bool_json, opt_date_json, opt_member,
    opt_string_json, opt_u32_json, push_member, push_opt_member, string_value, u32_value,
    JsonObject,
};
use crate::text::{json_quoted, json_string};

verus! {

/// An optional field that is not set writes no member at all, not even
/// `null`; one that is set writes exactly `"key":value`.
pub proof fn lemma_optional_field(key: Seq<char>, value: Option<Seq<char>>)
    ensures
        value is None ==> opt_member(key, value).len() == 0,
        value matches Some(v) ==> opt_member(key, value) == seq![member(key, v)],
{
}

/// An office change with no field set is sent as the empty object `{}`.
pub proof fn lemma_empty_office_change(r: UpdateOffice)
    requires
        r.name is None,
        r.zip is None,
        r.prefecture is None,
        r.address1 is None,
        r.address2 is None,
        r.tel is None,
        r.fax is None,
    ensures
        r.json_spec() == seq!['{', '}'],
{
    assert(r.json_members() =~= Seq::<Seq<char>>::empty());
    assert(r.json_spec() =~= seq!['{', '}']);
}

/// The fields of the office to change; a field left unset is not sent.
#[derive(Debug, Clone, PartialEq, Eq, Hash, Default)]
pub struct UpdateOffice {
    pub name: Option<String>,
    pub zip: Option<String>,
    pub prefecture: Option<String>,
    pub address1: Option<String>,
    pub address2: Option<String>,
    pub tel: Option<String>,
    pub fax: Option<String>,
}

impl UpdateOffice {
    /// The members of its JSON object, in order: one per field that is set.
    pub open spec fn json_members(&self) -> Seq<Seq<char>> {
        opt_member("name"@, string_value(self.name))
            + opt_member("zip"@, string_value(self.zip))
            + opt_member("prefecture"@, string_value(self.prefecture))
            + opt_member("address1"@, string_value(self.address1))
            + opt_member("address2"@, string_value(self.address2))
            + opt_member("tel"@, string_value(self.tel))
            + opt_member("fax"@, string_value(self.fax))
    }
}

impl JsonObject for UpdateOffice {
    open spec fn json_spec(&self) -> Seq<char> {
        object_text(self.json_members())
    }

    fn to_json(&self) -> (r: String) {
        let mut ms: Vec<String> = Vec::new();
        push_opt_member(&mut ms, "name", opt_string_json(&self.name));
        push_opt_member(&mut ms, "zip", opt_string_json(&self.zip));
        push_opt_member(&mut ms, "prefecture", opt_string_json(&self.prefecture));
        push_opt_member(&mut ms, "address1", opt_string_json(&self.address1));
        push_opt_member(&mut ms, "address2", opt_string_json(&self.address2));
        push_opt_member(&mut ms, "tel", opt_string_json(&self.tel));
        push_opt_member(&mut ms, "fax", opt_string_json(&self.fax));
        assert(members_of(ms) =~= self.json_members());
        object_json(&ms)
    }
}

/// A partner to create.
#[derive(Debug, Clone, PartialEq, Eq, Hash, Default)]
pub struct NewPartner {
    pub code: Option<String>,
    pub name: String,
    pub name_kana: Option<String>,
    pub name_suffix: Option<String>,
    pub memo: Option<String>,
    pub zip: Option<String>,
    pub tel: Option<String>,
    pub prefecture: Option<String>,
    pub address1: Option<String>,
    pub address2: Option<String>,
    pub person_name: Option<String>,
    pub person_title: Option<String>,
    pub department_name: Option<String>,
    pub email: Option<String>,
    pub cc_emails: Option<String>,
}

impl NewPartner {
    /// The members of its JSON object, in order: one per field that is set.
    pub open spec fn json_members(&self) -> Seq<Seq<char>> {
        opt_member("code"@, string_value(self.code))
            + seq![member("name"@, json_quoted(self.name@))]
            + opt_member("name_kana"@, string_value(self.name_kana))
            + opt_member("name_suffix"@, string_value(self.name_suffix))
            + opt_member("memo"@, string_value(self.memo))
            + opt_member("zip"@, string_value(self.zip))
            + opt_member("tel"@, string_value(self.tel))
            + opt_member("prefecture"@, string_value(self.prefecture))
            + opt_member("address1"@, string_value(self.address1))
            + opt_member("address2"@, string_value(self.address2))
            + opt_member("person_name"@, string_value(self.person_name))
            + opt_member("person_title"@, string_value(self.person_title))
            + opt_member("department_name"@, string_value(self.department_name))
            + opt_member("email"@, string_value(self.email))
            + opt_member("cc_emails"@, string_value(self.cc_emails))
    }
}

impl JsonObject for NewPartner {
    open spec fn json_spec(&self) -> Seq<char> {
        object_text(self.json_members())
    }

    fn to_json(&self) -> (r: String) {
        let mut ms: Vec<String> = Vec::new();
        push_opt_member(&mut ms, "code", opt_string_json(&self.code));
        let v = json_string(self.name.as_str());
        push_member(&mut ms, "name", v.as_str());
        push_opt_member(&mut ms, "name_kana", opt_string_json(&self.name_kana));
        push_opt_member(&mut ms, "name_suffix", opt_string_json(&self.name_suffix));
        push_opt_member(&mut ms, "memo", opt_string_json(&self.memo));
        push_opt_member(&mut ms, "zip", opt_string_json(&self.zip));
        push_opt_member(&mut ms, "tel", opt_string_json(&self.tel));
        push_opt_member(&mut ms, "prefecture", opt_string_json(&self.prefecture));
        push_opt_member(&mut ms, "address1", opt_string_json(&self.address1));
        push_opt_member(&mut ms, "address2", opt_string_json(&self.address2));
        push_opt_member(&mut ms, "person_name", opt_string_json(&self.person_name));
        push_opt_member(&mut ms, "person_title", opt_string_json(&self.person_title));
        push_opt_member(&mut ms, "department_name", opt_string_json(&self.department_name));
        push_opt_member(&mut ms, "email", opt_string_json(&self.email));
        push_opt_member(&mut ms, "cc_emails", opt_string_json(&self.cc_emails));
        assert(members_of(ms) =~= self.json_members());
        object_json(&ms)
    }
}

/// A department to change along with its partner; `id` names an existing department.
#[derive(Debug, Clone, PartialEq, Eq, Hash, Default)]
pub struct UpdateDepartmentInfo {
    pub id: Option<String>,
    pub zip: Option<String>,
    pub tel: Option<String>,
    pub prefecture: Option<String>,
    pub address1: Option<String>,
    pub address2: Option<String>,
    pub person_name: Option<String>,
    pub person_title: Option<String>,
    pub name: Option<String>,
    pub email: Option<String>,
    pub cc_emails: Option<String>,
}

impl UpdateDepartmentInfo {
    /// The members of its JSON object, in order: one per field that is set.
    pub open spec fn json_members(&self) -> Seq<Seq<char>> {
        opt_member("id"@, string_value(self.id))
            + opt_member("zip"@, string_value(self.zip))
            + opt_member("tel"@, string_value(self.tel))
            + opt_member("prefecture"@, string_value(self.prefecture))
            + opt_member("address1"@, string_value(self.address1))
            + opt_member("address2"@, string_value(self.address2))
            + opt_member("person_name"@, string_value(self.person_name))
            + opt_member("person_title"@, string_value(self.person_title))
            + opt_member("name"@, string_value(self.name))
            + opt_member("email"@, string_value(self.email))
            + opt_member("cc_emails"@, string_value(self.cc_emails))
    }
}

impl JsonObject for UpdateDepartmentInfo {
    open spec fn json_spec(&self) -> Seq<char> {
        object_text(self.json_members())
    }

    fn to_json(&self) -> (r: String) {
        let mut ms: Vec<String> = Vec::new();
        push_opt_member(&mut ms, "id", opt_string_json(&self.id));
        push_opt_member(&mut ms, "zip", opt_string_json(&self.zip));
        push_opt_member(&mut ms, "tel", opt_string_json(&self.tel));
        push_opt_member(&mut ms, "prefecture", opt_string_json(&self.prefecture));
        push_opt_member(&mut ms, "address1", opt_string_json(&self.address1));
        push_opt_member(&mut ms, "address2", opt_string_json(&self.address2));
        push_opt_member(&mut ms, "person_name", opt_string_json(&self.person_name));
        push_opt_member(&mut ms, "person_title", opt_string_json(&self.person_title));
        push_opt_member(&mut ms, "name", opt_string_json(&self.name));
        push_opt_member(&mut ms, "email", opt_string_json(&self.email));
        push_opt_member(&mut ms, "cc_emails", opt_string_json(&self.cc_emails));
        assert(members_of(ms) =~= self.json_members());
        object_json(&ms)
    }
}

/// The fields of a partner to change, with its departments.
#[derive(Debug, Clone, PartialEq, Eq, Hash, Default)]
pub struct UpdatePartner {
    pub code: Option<String>,
    pub name: Option<String>,
    pub name_kana: Option<String>,
    pub name_suffix: Option<String>,
    pub memo: Option<String>,
    pub departments: Vec<UpdateDepartmentInfo>,
}

impl UpdatePartner {
    /// The members of its JSON object, in order: one per field that is set.
    pub open spec fn json_members(&self) -> Seq<Seq<char>> {
        opt_member("code"@, string_value(self.code))
            + opt_member("name"@, string_value(self.name))
            + opt_member("name_kana"@, string_value(self.name_kana))
            + opt_member("name_suffix"@, string_value(self.name_suffix))
            + opt_member("memo"@, string_value(self.memo))
            + seq![member("departments"@, array_text(json_items(self.departments@)))]
    }
}

impl JsonObject for UpdatePartner {
    open spec fn json_spec(&self) -> Seq<char> {
        object_text(self.json_members())
    }

    fn to_json(&self) -> (r: String) {
        let mut ms: Vec<String> = Vec::new();
        push_opt_member(&mut ms, "code", opt_string_json(&self.code));
        push_opt_member(&mut ms, "name", opt_string_json(&self.name));
        push_opt_member(&mut ms, "name_kana", opt_string_json(&self.name_kana));
        push_opt_member(&mut ms, "name_suffix", opt_string_json(&self.name_suffix));
        push_opt_member(&mut ms, "memo", opt_string_json(&self.memo));
        let v = array_json(&self.departments);
        push_member(&mut ms, "departments", v.as_str());
        assert(members_of(ms) =~= self.json_members());
        object_json(&ms)
    }
}

/// A line of a billing to create; with an `id` it changes an existing item, without one it adds one.
#[derive(Debug, Clone, PartialEq, Eq, Hash, Default)]
pub struct NewBillingItem {
    pub id: Option<String>,
    pub name: Option<String>,
    pub code: Option<String>,
    pub detail: Option<String>,
    pub quantity: Option<String>,
    pub unit_price: Option<String>,
    pub unit: Option<String>,
    pub excise: bool,
}

impl NewBillingItem {
    /// The members of its JSON object, in order: one per field that is set.
    pub open spec fn json_members(&self) -> Seq<Seq<char>> {
        opt_member("id"@, string_value(self.id))
            + opt_member("name"@, string_value(self.name))
            + opt_member("code"@, string_value(self.code))
            + opt_member("detail"@, string_value(self.detail))
            + opt_member("quantity"@, string_value(self.quantity))
            + opt_member("unit_price"@, string_value(self.unit_price))
            + opt_member("unit"@, string_value(self.unit))
            + seq![member("excise"@, bool_text(self.excise))]
    }
}

impl JsonObject for NewBillingItem {
    open spec fn json_spec(&self) -> Seq<char> {
        object_text(self.json_members())
    }

    fn to_json(&self) -> (r: String) {
        let mut ms: Vec<String> = Vec::new();
        push_opt_member(&mut ms, "id", opt_string_json(&self.id));
        push_opt_member(&mut ms, "name", opt_string_json(&self.name));
        push_opt_member(&mut ms, "code", opt_string_json(&self.code));
        push_opt_member(&mut ms, "detail", opt_string_json(&self.detail));
        push_opt_member(&mut ms, "quantity", opt_string_json(&self.quantity));
        push_opt_member(&mut ms, "unit_price", opt_string_json(&self.unit_price));
        push_opt_member(&mut ms, "unit", opt_string_json(&self.unit));
        let v = bool_json(self.excise);
        push_member(&mut ms, "excise", v.as_str());
        assert(members_of(ms) =~= self.json_members());
        object_json(&ms)
    }
}

/// A billing to create.
#[derive(Debug, Clone, PartialEq, Eq, Hash)]
pub struct NewBilling {
    pub department_id: String,
    pub title: Option<String>,
    pub billing_number: Option<String>,
    pub payment_condition: Option<String>,
    pub note: Option<String>,
    pub billing_date: Option<Date>,
    pub due_date: Option<Date>,
    pub sales_date: Option<Date>,
    pub memo: Option<String>,
    pub document_name: Option<String>,
    pub tags: Option<String>,
    pub items: Vec<NewBillingItem>,
}

impl NewBilling {
    /// The members of its JSON object, in order: one per field that is set.
    pub open spec fn json_members(&self) -> Seq<Seq<char>> {
        seq![member("department_id"@, json_quoted(self.department_id@))]
            + opt_member("title"@, string_value(self.title))
            + opt_member("billing_number"@, string_value(self.billing_number))
            + opt_member("payment_condition"@, string_value(self.payment_condition))
            + opt_member("note"@, string_value(self.note))
            + opt_member("billing_date"@, date_value(self.billing_date))
            + opt_member("due_date"@, date_value(self.due_date))
            + opt_member("sales_date"@, date_value(self.sales_date))
            + opt_member("memo"@, string_value(self.memo))
            + opt_member("document_name"@, string_value(self.document_name))
            + opt_member("tags"@, string_value(self.tags))
            + seq![member("items"@, array_text(json_items(self.items@)))]
    }
}

impl JsonObject for NewBilling {
    open spec fn json_spec(&self) -> Seq<char> {
        object_text(self.json_members())
    }

    fn to_json(&self) -> (r: String) {
        let mut ms: Vec<String> = Vec::new();
        let v = json_string(self.department_id.as_str());
        push_member(&mut ms, "department_id", v.as_str());
        push_opt_member(&mut ms, "title", opt_string_json(&self.title));
        push_opt_member(&mut ms, "billing_number", opt_string_json(&self.billing_number));
        push_opt_member(&mut ms, "payment_condition", opt_string_json(&self.payment_condition));
        push_opt_member(&mut ms, "note", opt_string_json(&self.note));
        assert(members_of(ms) =~= seq![member("department_id"@, json_quoted(self.department_id@))]
            + opt_member("title"@, string_value(self.title))
            + opt_member("billing_number"@, string_value(self.billing_number))
            + opt_member("payment_condition"@, string_value(self.payment_condition))
            + opt_member("note"@, string_value(self.note)));
        push_opt_member(&mut ms, "billing_date", opt_date_json(&self.billing_date));
        push_opt_member(&mut ms, "due_date", opt_date_json(&self.due_date));
        push_opt_member(&mut ms, "sales_date", opt_date_json(&self.sales_date));
        assert(members_of(ms) =~= seq![member("department_id"@, json_quoted(self.department_id@))]
            + opt_member("title"@, string_value(self.title))
            + opt_member("billing_number"@, string_value(self.billing_number))
            + opt_member("payment_condition"@, string_value(self.payment_condition))
            + opt_member("note"@, string_value(self.note))
            + opt_member("billing_date"@, date_value(self.billing_date))
            + opt_member("due_date"@, date_value(self.due_date))
            + opt_member("sales_date"@, date_value(self.sales_date)));
        push_opt_member(&mut ms, "memo", opt_string_json(&self.memo));
        push_opt_member(&mut ms, "document_name", opt_string_json(&self.document_name));
        push_opt_member(&mut ms, "tags", opt_string_json(&self.tags));
        let v = array_json(&self.items);
        push_member(&mut ms, "items", v.as_str());
        assert(members_of(ms) =~= self.json_members());
        object_json(&ms)
    }
}

/// A line of a billing to change; `_destroy` asks for its removal.
#[derive(Debug, Clone, PartialEq, Eq, Hash, Default)]
pub struct UpdateBillingItem {
    pub id: Option<String>,
    pub name: Option<String>,
    pub code: Option<String>,
    pub detail: Option<String>,
    pub quantity: Option<String>,
    pub unit_price: Option<String>,
    pub unit: Option<u32>,
    pub excise: bool,
    pub _destroy: bool,
}

impl UpdateBillingItem {
    /// The members of its JSON object, in order: one per field that is set.
    pub open spec fn json_members(&self) -> Seq<Seq<char>> {
        opt_member("id"@, string_value(self.id))
            + opt_member("name"@, string_value(self.name))
            + opt_member("code"@, string_value(self.code))
            + opt_member("detail"@, string_value(self.detail))
            + opt_member("quantity"@, string_value(self.quantity))
            + opt_member("unit_price"@, string_value(self.unit_price))
            + opt_member("unit"@, u32_value(self.unit))
            + seq![member("excise"@, bool_text(self.excise))]
            + seq![member("_destroy"@, bool_text(self._destroy))]
    }
}

impl JsonObject for UpdateBillingItem {
    open spec fn json_spec(&self) -> Seq<char> {
        object_text(self.json_members())
    }

    fn to_json(&self) -> (r: String) {
        let mut ms: Vec<String> = Vec::new();
        push_opt_member(&mut ms, "id", opt_string_json(&self.id));
        push_opt_member(&mut ms, "name", opt_string_json(&self.name));
        push_opt_member(&mut ms, "code", opt_string_json(&self.code));
        push_opt_member(&mut ms, "detail", opt_string_json(&self.detail));
        push_opt_member(&mut ms, "quantity", opt_string_json(&self.quantity));
        push_opt_member(&mut ms, "unit_price", opt_string_json(&self.unit_price));
        push_opt_member(&mut ms, "unit", opt_u32_json(self.unit));
        let v = bool_json(self.excise);
        push_member(&mut ms, "excise", v.as_str());
        let v = bool_json(self._destroy);
        push_member(&mut ms, "_destroy", v.as_str());
        assert(members_of(ms) =~= self.json_members());
        object_json(&ms)
    }
}

/// The fields of a billing to change.
#[derive(Debug, Clone, PartialEq, Eq, Hash)]
pub struct UpdateBilling {
    pub department_id: String,
    pub title: Option<String>,
    pub billing_number: Option<String>,
    pub payment_condition: Option<String>,
    pub note: Option<String>,
    pub billing_date: Option<Date>,
    pub due_date: Option<Date>,
    pub sales_date: Option<Date>,
    pub memo: Option<String>,
    pub document_name: Option<String>,
    pub tags: Option<String>,
    pub items: Vec<UpdateBillingItem>,
}

impl UpdateBilling {
    /// The members of its JSON object, in order: one per field that is set.
    pub open spec fn json_members(&self) -> Seq<Seq<char>> {
        seq![member("department_id"@, json_quoted(self.department_id@))]
            + opt_member("title"@, string_value(self.title))
            + opt_member("billing_number"@, string_value(self.billing_number))
            + opt_member("payment_condition"@, string_value(self.payment_condition))
            + opt_member("note"@, string_value(self.note))
            + opt_member("billing_date"@, date_value(self.billing_date))
            + opt_member("due_date"@, date_value(self.due_date))
            + opt_member("sales_date"@, date_value(self.sales_date))
            + opt_member("memo"@, string_value(self.memo))
            + opt_member("document_name"@, string_value(self.document_name))
            + opt_member("tags"@, string_value(self.tags))
            + seq![member("items"@, array_text(json_items(self.items@)))]
    }
}

impl JsonObject for UpdateBilling {
    open spec fn json_spec(&self) -> Seq<char> {
        object_text(self.json_members())
    }

    fn to_json(&self) -> (r: String) {
        let mut ms: Vec<String> = Vec::new();
        let v = json_string(self.department_id.as_str());
        push_member(&mut ms, "department_id", v.as_str());
        push_opt_member(&mut ms, "title", opt_string_json(&self.title));
        push_opt_member(&mut ms, "billing_number", opt_string_json(&self.billing_number));
        push_opt_member(&mut ms, "payment_condition", opt_string_json(&self.payment_condition));
        push_opt_member(&mut ms, "note", opt_string_json(&self.note));
        assert(members_of(ms) =~= seq![member("department_id"@, json_quoted(self.department_id@))]
            + opt_member("title"@, string_value(self.title))
            + opt_member("billing_number"@, string_value(self.billing_number))
            + opt_member("payment_condition"@, string_value(self.payment_condition))
            + opt_member("note"@, string_value(self.note)));
        push_opt_member(&mut ms, "billing_date", opt_date_json(&self.billing_date));
        push_opt_member(&mut ms, "due_date", opt_date_json(&self.due_date));
        push_opt_member(&mut ms, "sales_date", opt_date_json(&self.sales_date));
        assert(members_of(ms) =~= seq![member("department_id"@, json_quoted(self.department_id@))]
            + opt_member("title"@, string_value(self.title))
            + opt_member("billing_number"@, string_value(self.billing_number))
            + opt_member("payment_condition"@, string_value(self.payment_condition))
            + opt_member("note"@, string_value(self.note))
            + opt_member("billing_date"@, date_value(self.billing_date))
            + opt_member("due_date"@, date_value(self.due_date))
            + opt_member("sales_date"@, date_value(self.sales_date)));
        push_opt_member(&mut ms, "memo", opt_string_json(&self.memo));
        push_opt_member(&mut ms, "document_name", opt_string_json(&self.document_name));
        push_opt_member(&mut ms, "tags", opt_string_json(&self.tags));
        let v = array_json(&self.items);
        push_member(&mut ms, "items", v.as_str());
        assert(members_of(ms) =~= self.json_members());
        object_json(&ms)
    }
}

/// An item to create.
#[derive(Debug, Clone, PartialEq, Eq, Hash, Default)]
pub struct NewItem {
    pub name: Option<String>,
    pub code: Option<String>,
    pub detail: Option<String>,
    pub unit_price: Option<u32>,
    pub unit: Option<String>,
    pub quantity: Option<u32>,
    pub excise: Option<bool>,
}

impl NewItem {
    /// The members of its JSON object, in order: one per field that is set.
    pub open spec fn json_members(&self) -> Seq<Seq<char>> {
        opt_member("name"@, string_value(self.name))
            + opt_member("code"@, string_value(self.code))
            + opt_member("detail"@, string_value(self.detail))
            + opt_member("unit_price"@, u32_value(self.unit_price))
            + opt_member("unit"@, string_value(self.unit))
            + opt_member("quantity"@, u32_value(self.quantity))
            + opt_member("excise"@, bool_value(self.excise))
    }
}

impl JsonObject for NewItem {
    open spec fn json_spec(&self) -> Seq<char> {
        object_text(self.json_members())
    }

    fn to_json(&self) -> (r: String) {
        let mut ms: Vec<String> = Vec::new();
        push_opt_member(&mut ms, "name", opt_string_json(&self.name));
        push_opt_member(&mut ms, "code", opt_string_json(&self.code));
        push_opt_member(&mut ms, "detail", opt_string_json(&self.detail));
        push_opt_member(&mut ms, "unit_price", opt_u32_json(self.unit_price));
        push_opt_member(&mut ms, "unit", opt_string_json(&self.unit));
        push_opt_member(&mut ms, "quantity", opt_u32_json(self.quantity));
        push_opt_member(&mut ms, "excise", opt_bool_json(self.excise));
        assert(members_of(ms) =~= self.json_members());
        object_json(&ms)
    }
}

/// The fields of an item to change.
#[derive(Debug, Clone, PartialEq, Eq, Hash, Default)]
pub struct UpdateItem {
    pub name: Option<String>,
    pub code: Option<String>,
    pub detail: Option<String>,
    pub unit_price: Option<u32>,
    pub unit: Option<String>,
    pub quantity: Option<u32>,
    pub excise: Option<bool>,
}

impl UpdateItem {
    /// The members of its JSON object, in order: one per field that is set.
    pub open spec fn json_members(&self) -> Seq<Seq<char>> {
        opt_member("name"@, string_value(self.name))
            + opt_member("code"@, string_value(self.code))
            + opt_member("detail"@, string_value(self.detail))
            + opt_member("unit_price"@, u32_value(self.unit_price))
            + opt_member("unit"@, string_value(self.unit))
            + opt_member("quantity"@, u32_value(self.quantity))
            + opt_member("excise"@, bool_value(self.excise))
    }
}

impl JsonObject for UpdateItem {
    open spec fn json_spec(&self) -> Seq<char> {
        object_text(self.json_members())
    }

    fn to_json(&self) -> (r: String) {
        let mut ms: Vec<String> = Vec::new();
        push_opt_member(&mut ms, "name", opt_string_json(&self.name));
        push_opt_member(&mut ms, "code", opt_string_json(&self.code));
        push_opt_member(&mut ms, "detail", opt_string_json(&self.detail));
        push_opt_member(&mut ms, "unit_price", opt_u32_json(self.unit_price));
        push_opt_member(&mut ms, "unit", opt_string_json(&self.unit));
        push_opt_member(&mut ms, "quantity", opt_u32_json(self.quantity));
        push_opt_member(&mut ms, "excise", opt_bool_json(self.excise));
        assert(members_of(ms) =~= self.json_members());
        object_json(&ms)
    }
}

} // verus!
