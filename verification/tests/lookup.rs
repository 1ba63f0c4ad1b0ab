use aletheia_server::memory::{DisconnectedStore, MemoryStore};
use aletheia_server::product::{na, Product};
use aletheia_server::routes::{get_products_list, product_info, HttpReply, ResponseBody};

fn record(code: &str, name: &str, nutri: &str, eco: &str, nova: &str) -> Product {
    Product {
        code: code.to_string(),
        product_name: name.to_string(),
        nutriscore_grade: nutri.to_string(),
        ecoscore_grade: eco.to_string(),
        nova_group: nova.to_string(),
    }
}

fn cookies() -> Product {
    record("123", "Cookies", "D", "C", "4")
}

fn sample_store() -> MemoryStore {
    MemoryStore::new(vec![
        record("100", "Oats", "A", "B", "1"),
        record("200", "Crisps", "E", "D", "4"),
        record("300", "Beans", "B", "A", "2"),
    ])
}

fn message_of(reply: &HttpReply) -> &str {
    match &reply.body {
        ResponseBody::Message(m) => m.as_str(),
        _ => panic!("reply body is not a plain message"),
    }
}

fn product_of(reply: &HttpReply) -> &Product {
    match &reply.body {
        ResponseBody::Product(p) => p,
        _ => panic!("reply body is not a single product"),
    }
}

fn products_of(reply: &HttpReply) -> &Vec<Product> {
    match &reply.body {
        ResponseBody::ProductList(v) => v,
        _ => panic!("reply body is not a product list"),
    }
}

#[test]
fn single_lookup_present_returns_200_with_matching_code() {
    let store = sample_store();
    let reply = product_info(&store, "200".to_string());
    assert_eq!(reply.status, 200);
    let p = product_of(&reply);
    assert_eq!(p.code, "200");
    assert_eq!(p.product_name, "Crisps");
}

#[test]
fn single_lookup_absent_returns_404() {
    let store = sample_store();
    let reply = product_info(&store, "999".to_string());
    assert_eq!(reply.status, 404);
    assert_eq!(message_of(&reply), "Product not found");
}

#[test]
fn single_lookup_first_match_wins() {
    let store = MemoryStore::new(vec![
        record("7", "First", "A", "A", "1"),
        record("7", "Second", "B", "B", "2"),
    ]);
    let reply = product_info(&store, "7".to_string());
    assert_eq!(reply.status, 200);
    assert_eq!(product_of(&reply).product_name, "First");
}

#[test]
fn batch_lookup_returns_only_existing_records() {
    let store = sample_store();
    let reply = get_products_list(
        &store,
        vec!["300".to_string(), "999".to_string(), "100".to_string()],
    );
    assert_eq!(reply.status, 200);
    let v = products_of(&reply);
    assert_eq!(v.len(), 2);
    assert_eq!(v[0].code, "100");
    assert_eq!(v[1].code, "300");
}

#[test]
fn batch_lookup_duplicate_codes_return_each_record_once() {
    let store = sample_store();
    let reply = get_products_list(&store, vec!["200".to_string(), "200".to_string()]);
    assert_eq!(reply.status, 200);
    let v = products_of(&reply);
    assert_eq!(v.len(), 1);
    assert_eq!(v[0].code, "200");
}

#[test]
fn batch_lookup_returns_every_record_sharing_a_requested_code() {
    let store = MemoryStore::new(vec![
        record("7", "First", "A", "A", "1"),
        record("8", "Other", "C", "C", "3"),
        record("7", "Second", "B", "B", "2"),
    ]);
    let reply = get_products_list(&store, vec!["7".to_string()]);
    assert_eq!(reply.status, 200);
    let v = products_of(&reply);
    assert_eq!(v.len(), 2);
    assert_eq!(v[0].product_name, "First");
    assert_eq!(v[1].product_name, "Second");
}

#[test]
fn batch_lookup_empty_request_returns_200_empty_list() {
    let store = sample_store();
    let reply = get_products_list(&store, Vec::new());
    assert_eq!(reply.status, 200);
    assert!(products_of(&reply).is_empty());
}

#[test]
fn batch_lookup_no_match_returns_200_empty_list() {
    let store = sample_store();
    let reply = get_products_list(&store, vec!["888".to_string(), "999".to_string()]);
    assert_eq!(reply.status, 200);
    assert!(products_of(&reply).is_empty());
}

#[test]
fn store_failure_on_single_lookup_hides_detail() {
    let detail = "connection refused by mongodb node 10.0.0.5:27017";
    let store = DisconnectedStore { detail: detail.to_string() };
    let reply = product_info(&store, "123".to_string());
    assert_eq!(reply.status, 500);
    let body = message_of(&reply);
    assert_eq!(body, "An error occurred");
    assert!(!body.contains(detail));
}

#[test]
fn store_failure_on_batch_lookup_hides_detail() {
    let detail = "query timed out after 30s";
    let store = DisconnectedStore { detail: detail.to_string() };
    let reply = get_products_list(&store, vec!["123".to_string()]);
    assert_eq!(reply.status, 500);
    let body = message_of(&reply);
    assert_eq!(body, "An error occurred");
    assert!(!body.contains(detail));
}

#[test]
fn missing_descriptive_fields_default_to_na() {
    let p = Product::from_record("55".to_string(), None, None, None, None);
    assert_eq!(p.code, "55");
    assert_eq!(p.product_name, "NA");
    assert_eq!(p.nutriscore_grade, "NA");
    assert_eq!(p.ecoscore_grade, "NA");
    assert_eq!(p.nova_group, "NA");
}

#[test]
fn present_descriptive_fields_are_kept() {
    let p = Product::from_record(
        "55".to_string(),
        Some("Rice".to_string()),
        None,
        Some("B".to_string()),
        None,
    );
    assert_eq!(p.product_name, "Rice");
    assert_eq!(p.nutriscore_grade, "NA");
    assert_eq!(p.ecoscore_grade, "B");
    assert_eq!(p.nova_group, "NA");
}

#[test]
fn na_sentinel_value() {
    assert_eq!(na(), "NA");
}

#[test]
fn scenario_cookies_store() {
    let store = MemoryStore::new(vec![cookies()]);

    let reply = product_info(&store, "123".to_string());
    assert_eq!(reply.status, 200);
    let p = product_of(&reply);
    assert_eq!(p.code, "123");
    assert_eq!(p.product_name, "Cookies");
    assert_eq!(p.nutriscore_grade, "D");
    assert_eq!(p.ecoscore_grade, "C");
    assert_eq!(p.nova_group, "4");

    let missing = product_info(&store, "999".to_string());
    assert_eq!(missing.status, 404);
    assert_eq!(message_of(&missing), "Product not found");

    let batch = get_products_list(&store, vec!["123".to_string(), "999".to_string()]);
    assert_eq!(batch.status, 200);
    let v = products_of(&batch);
    assert_eq!(v.len(), 1);
    assert_eq!(v[0].code, "123");
    assert_eq!(v[0].product_name, "Cookies");
}
