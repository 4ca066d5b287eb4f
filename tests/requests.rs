use mfinvoice::{
    Client, Date, Expect, HttpRequest, JsonObject, Method, NewBilling, NewBillingItem, NewItem, NewPartner,
    UpdateBillingItem, UpdateDepartmentInfo, UpdateItem, UpdateOffice, UpdatePartner,
};

const BASE: &str = "https://invoice.moneyforward.com";

fn client() -> Client {
    Client::new("token123".to_string())
}

#[test]
fn paging_query_has_page_then_per_page() {
    let r = client().list_partners(1, 100).unwrap();
    assert_eq!(r.url, format!("{}/api/v1/partners.json?page=1&per_page=100", BASE));
    assert_eq!(r.method, Method::Get);
    assert_eq!(r.body, None);
    assert_eq!(r.content_type, None);
    assert_eq!(r.expect, Expect::Json);
}

#[test]
fn other_listings_carry_paging() {
    let c = client();
    let b = c.list_billings(2, 50).unwrap();
    assert_eq!(b.url, format!("{}/api/v1/billings.json?page=2&per_page=50", BASE));
    let s = c.sent_history(4294967295, 0).unwrap();
    assert_eq!(s.url, format!("{}/api/v1/sent_history.json?page=4294967295&per_page=0", BASE));
}

#[test]
fn search_omits_unset_parameters() {
    let r = client().search_billings(1, 100, "X", None, None, None).unwrap();
    assert_eq!(r.url, format!("{}/api/v1/billings/search.json?page=1&per_page=100&q=X", BASE));
    assert!(!r.url.contains("range_key"));
    assert!(!r.url.contains("from"));
    assert!(!r.url.contains("to="));
}

#[test]
fn search_with_every_parameter() {
    let from = Date::from_ymd(2015, 10, 1).unwrap();
    let to = Date::from_ymd(2015, 10, 31).unwrap();
    let r = client()
        .search_billings(3, 20, "a b&c", Some("created_at"), Some(from), Some(to))
        .unwrap();
    assert_eq!(
        r.url,
        format!(
            "{}/api/v1/billings/search.json?page=3&per_page=20&q=a+b%26c&range_key=created_at&from=2015-10-01&to=2015-10-31",
            BASE
        )
    );
}

#[test]
fn search_query_encodes_utf8() {
    let r = client().search_billings(1, 1, "請求", None, None, None).unwrap();
    assert!(r.url.ends_with("&q=%E8%AB%8B%E6%B1%82"));
}

#[test]
fn every_request_carries_the_bearer_token() {
    let c = Client::new("abc123".to_string());
    assert_eq!(c.get_office().unwrap().authorization, "Bearer abc123");
    assert_eq!(c.delete_item("x").unwrap().authorization, "Bearer abc123");
}

#[test]
fn entity_paths() {
    let c = client();
    assert_eq!(c.get_office().unwrap().url, format!("{}/api/v1/office.json", BASE));
    assert_eq!(c.get_partner("P1").unwrap().url, format!("{}/api/v1/partners/P1.json", BASE));
    let d = c.delete_partner("P1").unwrap();
    assert_eq!((d.method, d.expect), (Method::Delete, Expect::Nothing));
    assert_eq!(c.get_billing("B1").unwrap().url, format!("{}/api/v1/billing/B1.json", BASE));
    let pdf = c.get_billing_pdf("B1").unwrap();
    assert_eq!(pdf.url, format!("{}/api/v1/billing/B1.pdf", BASE));
    assert_eq!(pdf.expect, Expect::Bytes);
    let p = c.posting_billing("B1").unwrap();
    assert_eq!(p.url, format!("{}/api/v1/billings/B1/posting", BASE));
    assert_eq!((p.method, p.expect, p.body), (Method::Post, Expect::Nothing, None));
    let cp = c.cancel_posting_billing("B1").unwrap();
    assert_eq!(cp.url, format!("{}/api/v1/billings/B1/cancel_posting", BASE));
    let db = c.delete_billing("B1").unwrap();
    assert_eq!((db.url, db.method), (format!("{}/api/v1/billings/B1", BASE), Method::Delete));
    assert_eq!(c.list_items().unwrap().url, format!("{}/api/v1/items.json", BASE));
    assert_eq!(c.get_item("I1").unwrap().url, format!("{}/api/v1/items/I1.json", BASE));
    assert_eq!(c.delete_item("I1").unwrap().url, format!("{}/api/v1/items/I1", BASE));
}

#[test]
fn path_resolution_goes_through_the_url_parser() {
    let c = client();
    // a space in an id is percent-encoded by the URL parser
    assert_eq!(c.get_item("a b").unwrap().url, format!("{}/api/v1/items/a%20b.json", BASE));
}

#[test]
fn malformed_base_is_a_transport_error() {
    let c = Client::with_server("not a url".to_string(), "t".to_string());
    assert!(c.get_office().is_err());
}

#[test]
fn other_server() {
    let c = Client::with_server("http://localhost:8080/".to_string(), "t".to_string());
    assert_eq!(c.get_office().unwrap().url, "http://localhost:8080/api/v1/office.json");
}

#[test]
fn update_office_sends_only_set_fields() {
    let req = UpdateOffice { name: Some("Office A".to_string()), tel: Some("03".to_string()), ..Default::default() };
    let r = client().update_office(req).unwrap();
    assert_eq!(r.method, Method::Patch);
    assert_eq!(r.url, format!("{}/api/v1/office", BASE));
    assert_eq!(r.body.as_deref(), Some(r#"{"name":"Office A","tel":"03"}"#));
    assert_eq!(r.content_type.as_deref(), Some("application/json"));
}

#[test]
fn empty_update_is_empty_object() {
    assert_eq!(UpdateItem::default().to_json(), "{}");
    assert_eq!(UpdateOffice::default().to_json(), "{}");
}

#[test]
fn create_partner_is_enveloped() {
    let req = NewPartner { name: "ACME".to_string(), memo: Some("m".to_string()), ..Default::default() };
    let r = client().create_partner(req).unwrap();
    assert_eq!(r.method, Method::Post);
    assert_eq!(r.url, format!("{}/api/v1/partners", BASE));
    assert_eq!(r.body.as_deref(), Some(r#"{"partner":{"name":"ACME","memo":"m"}}"#));
}

#[test]
fn update_partner_with_departments() {
    let dep = UpdateDepartmentInfo { id: Some("D1".to_string()), zip: Some("123".to_string()), ..Default::default() };
    let req = UpdatePartner { name: Some("N".to_string()), departments: vec![dep, UpdateDepartmentInfo::default()], ..Default::default() };
    let r = client().update_partner("P9", req).unwrap();
    assert_eq!(r.method, Method::Patch);
    assert_eq!(r.url, format!("{}/api/v1/partners/P9", BASE));
    assert_eq!(
        r.body.as_deref(),
        Some(r#"{"partner":{"name":"N","departments":[{"id":"D1","zip":"123"},{}]}}"#)
    );
}

#[test]
fn new_billing_json() {
    let item = NewBillingItem { name: Some("A".to_string()), quantity: Some("2".to_string()), excise: true, ..Default::default() };
    let req = NewBilling {
        department_id: "D".to_string(),
        title: Some("T".to_string()),
        billing_date: Some(Date::from_ymd(2017, 9, 30).unwrap()),
        due_date: None,
        sales_date: None,
        billing_number: None,
        payment_condition: None,
        note: None,
        memo: None,
        document_name: None,
        tags: Some("x,y".to_string()),
        items: vec![item],
    };
    let r = client().create_billing(req).unwrap();
    assert_eq!(
        r.body.as_deref(),
        Some(r#"{"billing":{"department_id":"D","title":"T","billing_date":"2017-09-30","tags":"x,y","items":[{"name":"A","quantity":"2","excise":true}]}}"#)
    );
}

#[test]
fn update_billing_item_json() {
    let item = UpdateBillingItem { id: Some("I".to_string()), unit: Some(12), excise: false, _destroy: true, ..Default::default() };
    assert_eq!(item.to_json(), r#"{"id":"I","unit":12,"excise":false,"_destroy":true}"#);
}

#[test]
fn items_json() {
    let req = NewItem { name: Some("W".to_string()), unit_price: Some(1000), quantity: Some(0), excise: Some(false), ..Default::default() };
    assert_eq!(req.to_json(), r#"{"name":"W","unit_price":1000,"quantity":0,"excise":false}"#);
    let r = client().create_item(req).unwrap();
    assert_eq!(r.url, format!("{}/api/v1/items.json", BASE));
    assert_eq!(r.body.as_deref(), Some(r#"{"name":"W","unit_price":1000,"quantity":0,"excise":false}"#));
    let u = client().update_item("I2", UpdateItem { excise: Some(true), ..Default::default() }).unwrap();
    assert_eq!(u.url, format!("{}/api/v1/items/I2", BASE));
    assert_eq!(u.body.as_deref(), Some(r#"{"excise":true}"#));
}

#[test]
fn strings_are_escaped_in_json() {
    let req = UpdateOffice { name: Some("a\"b\\c\nd\u{1}é".to_string()), ..Default::default() };
    assert_eq!(req.to_json(), "{\"name\":\"a\\\"b\\\\c\\nd\\u0001é\"}");
}

#[test]
fn json_round_trip_keeps_set_fields_and_omits_unset() {
    let req = NewItem { name: Some("n".to_string()), code: Some("c".to_string()), unit_price: Some(5), ..Default::default() };
    let v: serde_json::Value = serde_json::from_str(&req.to_json()).unwrap();
    let o = v.as_object().unwrap();
    assert_eq!(o.len(), 3);
    assert_eq!(o["name"], serde_json::Value::String("n".to_string()));
    assert_eq!(o["code"], serde_json::Value::String("c".to_string()));
    assert_eq!(o["unit_price"].as_u64(), Some(5));
    assert!(!o.contains_key("detail"));
    assert!(!o.contains_key("excise"));
}

#[test]
fn assemble_from_resolved_url() {
    let r = HttpRequest::assemble(
        "https://h.example/x".to_string(),
        "tok",
        Method::Post,
        Some(vec![("a b".to_string(), "c/d".to_string())]),
        Some("{}".to_string()),
        Expect::Nothing,
    );
    assert_eq!(r.url, "https://h.example/x?a+b=c%2Fd");
    assert_eq!(r.authorization, "Bearer tok");
    assert_eq!(r.content_type.as_deref(), Some("application/json"));
    assert_eq!(r.body.as_deref(), Some("{}"));
    assert_eq!((r.method, r.expect), (Method::Post, Expect::Nothing));
    let plain = HttpRequest::assemble("u".to_string(), "", Method::Get, None, None, Expect::Json);
    assert_eq!((plain.url.as_str(), plain.authorization.as_str()), ("u", "Bearer "));
    assert_eq!(plain.content_type, None);
}
