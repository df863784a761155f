use azure_storage_core::decimal::push_decimal;
use azure_storage_core::error::AzureError;
use azure_storage_core::list_builder::{decode_list_response, ListBuilder};
use azure_storage_core::listing::{has_long_bracket_run, incomplete_vector_from_response, normalize_marker, page_from_parts, IncompleteVector};
use azure_storage_core::renew_lease_builder::{decode_renew_lease_response, RenewLeaseBuilder};
use azure_storage_core::request::{make_header, Client, Header, Method};
use azure_storage_core::response::{check_status, header_value};
use azure_storage_core::typestate::LeaseId;

fn page_body(names: &[&str], marker: Option<&str>) -> String {
    let mut body = String::from("<?xml version=\"1.0\" encoding=\"utf-8\"?><EnumerationResults><Containers>");
    for n in names {
        body.push_str(&format!("<Container><Name>{}</Name></Container>", n));
    }
    body.push_str("</Containers>");
    if let Some(m) = marker {
        body.push_str(&format!("<NextMarker>{}</NextMarker>", m));
    }
    body.push_str("</EnumerationResults>");
    body
}

fn names_of(page: &IncompleteVector<azure_storage_core::listing::Container>) -> Vec<String> {
    page.vector.iter().map(|c| c.name.clone()).collect()
}

fn find<'h>(headers: &'h [Header], name: &str) -> Vec<&'h str> {
    headers.iter().filter(|h| h.name == name).map(|h| h.value.as_str()).collect()
}

#[test]
fn list_scenario_prefix_and_page_size() {
    let client = Client::new("acct".to_string());
    let req = ListBuilder::new(&client).with_prefix("logs/").with_max_results(100).finalize();
    assert_eq!(req.method, Method::Get);
    assert_eq!(req.uri, "https://acct.blob.core.windows.net?comp=list&maxresults=100&prefix=logs/");
    assert!(req.uri.contains("maxresults=100"));
    assert!(req.uri.contains("prefix=logs/"));
    assert!(!req.uri.contains("marker"));
    assert!(req.headers.is_empty());
    assert!(req.body.is_none());

    let headers = vec![make_header("x-ms-request-id", "req-1")];
    let body = page_body(&["c1", "c2", "c3"], Some("abc"));
    let resp = decode_list_response(200, &headers, body).unwrap();
    assert_eq!(names_of(&resp.incomplete_vector), vec!["c1", "c2", "c3"]);
    assert_eq!(resp.incomplete_vector.next_marker, Some("abc".to_string()));
    assert_eq!(resp.request_id, Some("req-1".to_string()));

    let next = ListBuilder::new(&client)
        .with_prefix("logs/")
        .with_max_results(100)
        .next_page(&resp.incomplete_vector)
        .unwrap();
    let req2 = next.finalize();
    assert!(req2.uri.contains("marker=abc"));
    assert!(req2.uri.contains("prefix=logs/"));
    assert_eq!(req2.uri, "https://acct.blob.core.windows.net?comp=list&maxresults=100&prefix=logs/&marker=abc");
}

#[test]
fn list_defaults_and_every_option() {
    let client = Client::new("acct".to_string());
    let b = ListBuilder::new(&client);
    assert_eq!(b.max_results(), 5000);
    assert!(!b.is_metadata_included());
    assert_eq!(b.prefix(), None);
    assert_eq!(b.next_marker(), None);
    assert_eq!(b.timeout(), None);
    assert_eq!(b.client_request_id(), None);
    assert_eq!(b.client().account(), "acct");
    assert_eq!(b.clone().finalize().uri, "https://acct.blob.core.windows.net?comp=list&maxresults=5000");
    let b = b
        .include_metadata()
        .with_prefix("p")
        .with_next_marker("m")
        .with_timeout(30)
        .with_client_request_id("cid");
    assert!(b.is_metadata_included());
    let req = b.finalize();
    assert_eq!(
        req.uri,
        "https://acct.blob.core.windows.net?comp=list&maxresults=5000&include=metadata&prefix=p&marker=m&timeout=30"
    );
    assert_eq!(find(&req.headers, "x-ms-client-request-id"), vec!["cid"]);
    assert_eq!(req.headers.len(), 1);
}

#[test]
fn timeout_last_write_wins() {
    let client = Client::new("acct".to_string());
    let req = ListBuilder::new(&client).with_timeout(5).with_timeout(10).finalize();
    assert!(req.uri.ends_with("&timeout=10"));
    assert!(!req.uri.contains("timeout=5"));
    assert_eq!(req.uri.matches("timeout=").count(), 1);

    let lease = LeaseId::new("lid".to_string());
    let req = RenewLeaseBuilder::new(&client)
        .with_timeout(5)
        .with_container_name("box")
        .with_lease_id(&lease)
        .with_timeout(10)
        .finalize();
    assert_eq!(req.uri, "https://acct.blob.core.windows.net/box?comp=lease&restype=container&timeout=10");
}

#[test]
fn assembly_is_deterministic() {
    let client = Client::new("acct".to_string());
    let b = ListBuilder::new(&client).with_prefix("x").with_timeout(7).with_client_request_id("id");
    let r1 = b.clone().finalize();
    let r2 = b.finalize();
    assert_eq!(r1.method, r2.method);
    assert_eq!(r1.uri, r2.uri);
    assert_eq!(r1.body, r2.body);
    let h1: Vec<(String, String)> = r1.headers.iter().map(|h| (h.name.clone(), h.value.clone())).collect();
    let h2: Vec<(String, String)> = r2.headers.iter().map(|h| (h.name.clone(), h.value.clone())).collect();
    assert_eq!(h1, h2);
}

#[test]
fn empty_marker_reads_as_absent() {
    let with_empty = incomplete_vector_from_response(&page_body(&["a"], Some(""))).unwrap();
    let without = incomplete_vector_from_response(&page_body(&["a"], None)).unwrap();
    assert_eq!(with_empty.next_marker, None);
    assert_eq!(without.next_marker, None);
    assert!(with_empty.is_complete());
    assert_eq!(names_of(&with_empty), names_of(&without));
    assert_eq!(normalize_marker(Some(String::new())), None);
    assert_eq!(normalize_marker(None), None);
    assert_eq!(normalize_marker(Some("next".to_string())), Some("next".to_string()));
    let page = page_from_parts(vec![1u8, 2, 3], Some("k".to_string()));
    assert_eq!(page.vector, vec![1, 2, 3]);
    assert_eq!(page.next_marker, Some("k".to_string()));
    assert!(!page.is_complete());
}

#[test]
fn last_page_has_no_successor() {
    let client = Client::new("acct".to_string());
    let page = IncompleteVector::<u8>::new(None, vec![]);
    assert!(ListBuilder::new(&client).next_page(&page).is_none());
}

#[test]
fn empty_listing_is_a_page() {
    let body = "<EnumerationResults><Containers/></EnumerationResults>";
    let page = incomplete_vector_from_response(body).unwrap();
    assert!(page.vector.is_empty());
    assert_eq!(page.next_marker, None);
}

#[test]
fn malformed_listings_are_decode_errors() {
    assert!(matches!(incomplete_vector_from_response("not xml at all"), Err(AzureError::XmlParse)));
    match incomplete_vector_from_response("<EnumerationResults></EnumerationResults>") {
        Err(AzureError::PathNotFound(n)) => assert_eq!(n, "Containers"),
        other => panic!("unexpected {:?}", other),
    }
    match incomplete_vector_from_response("<R><Containers/><Containers/></R>") {
        Err(AzureError::MultipleNode(n)) => assert_eq!(n, "Containers"),
        other => panic!("unexpected {:?}", other),
    }
    match incomplete_vector_from_response("<R><Containers><Container/></Containers></R>") {
        Err(AzureError::PathNotFound(n)) => assert_eq!(n, "Name"),
        other => panic!("unexpected {:?}", other),
    }
    match incomplete_vector_from_response("<R><Containers/><NextMarker>a</NextMarker><NextMarker>b</NextMarker></R>") {
        Err(AzureError::MultipleNode(n)) => assert_eq!(n, "NextMarker"),
        other => panic!("unexpected {:?}", other),
    }
}

#[test]
fn unexpected_status_wins_over_a_parsable_body() {
    let body = page_body(&["c1"], Some("abc"));
    match decode_list_response(404, &vec![], body.clone()) {
        Err(AzureError::UnexpectedHttpResult { expected, received, body: b }) => {
            assert_eq!(expected, 200);
            assert_eq!(received, 404);
            assert_eq!(b, body);
        }
        other => panic!("unexpected {:?}", other),
    }
    match decode_renew_lease_response(404, &vec![make_header("x-ms-lease-id", "l")], "gone".to_string()) {
        Err(AzureError::UnexpectedHttpResult { expected, received, body }) => {
            assert_eq!((expected, received, body.as_str()), (200, 404, "gone"));
        }
        other => panic!("unexpected {:?}", other),
    }
    assert!(matches!(check_status(200, 200, "x".to_string()), Ok(ref s) if s == "x"));
}

#[test]
fn renew_scenario_lease_action_header() {
    let client = Client::new("acct".to_string());
    let lease = LeaseId::new("0f8fad5b-d9cb-469f-a165-70867728950e".to_string());
    let named = RenewLeaseBuilder::new(&client).with_container_name("box");
    assert!(!named.is_complete());
    assert_eq!(named.container_name(), "box");
    let ready = named.with_client_request_id("cid").with_lease_id(&lease);
    assert!(ready.is_complete());
    assert_eq!(ready.lease_id().as_str(), lease.as_str());
    let req = ready.finalize();
    assert_eq!(req.method, Method::Put);
    assert_eq!(req.uri, "https://acct.blob.core.windows.net/box?comp=lease&restype=container");
    assert_eq!(find(&req.headers, "x-ms-lease-action"), vec!["renew"]);
    assert_eq!(find(&req.headers, "x-ms-lease-id"), vec!["0f8fad5b-d9cb-469f-a165-70867728950e"]);
    assert_eq!(find(&req.headers, "x-ms-client-request-id"), vec!["cid"]);
    assert_eq!(req.body, Some(vec![]));
}

#[test]
fn required_parameters_in_either_order() {
    let client = Client::new("acct".to_string());
    let lease = LeaseId::new("lid".to_string());
    let fresh = RenewLeaseBuilder::new(&client);
    assert!(!fresh.is_complete());
    let only_lease = RenewLeaseBuilder::new(&client).with_lease_id(&lease);
    assert!(!only_lease.is_complete());
    let a = only_lease.with_container_name("box").finalize();
    let b = RenewLeaseBuilder::new(&client).with_container_name("box").with_lease_id(&lease).finalize();
    assert_eq!(a.uri, b.uri);
    assert_eq!(a.headers.len(), 2);
    assert_eq!(b.headers.len(), 2);
}

#[test]
fn renew_response_headers() {
    let headers = vec![make_header("x-ms-request-id", "r9"), make_header("x-ms-lease-id", "lid")];
    let resp = decode_renew_lease_response(200, &headers, String::new()).unwrap();
    assert_eq!(resp.lease_id.as_str(), "lid");
    assert_eq!(resp.request_id, Some("r9".to_string()));
    match decode_renew_lease_response(200, &vec![make_header("x-ms-request-id", "r9")], String::new()) {
        Err(AzureError::MissingHeader(n)) => assert_eq!(n, "x-ms-lease-id"),
        other => panic!("unexpected {:?}", other),
    }
}

#[test]
fn header_lookup_takes_the_first_match() {
    let headers = vec![make_header("a", "1"), make_header("b", "2"), make_header("a", "3")];
    assert_eq!(header_value(&headers, "a"), Some("1".to_string()));
    assert_eq!(header_value(&headers, "b"), Some("2".to_string()));
    assert_eq!(header_value(&headers, "c"), None);
    assert_eq!(header_value(&vec![], "a"), None);
}

#[test]
fn decimal_rendering() {
    for (n, text) in [(0u64, "0"), (7, "7"), (10, "10"), (5000, "5000"), (u64::MAX, "18446744073709551615")] {
        let mut s = String::from("x=");
        push_decimal(&mut s, n);
        assert_eq!(s, format!("x={}", text));
    }
}

#[test]
fn long_bracket_runs_are_rejected_before_parsing() {
    let run = "]".repeat(256);
    let body = format!("<R><Containers/><X><![CDATA[{}]]></X></R>", run);
    assert!(has_long_bracket_run(&body));
    assert!(matches!(incomplete_vector_from_response(&body), Err(AzureError::XmlParse)));
    assert!(matches!(decode_list_response(200, &vec![], body), Err(AzureError::XmlParse)));
    let short = "]".repeat(255);
    assert!(!has_long_bracket_run(&short));
    assert!(!has_long_bracket_run(&format!("{}a{}", short, short)));
    assert!(has_long_bracket_run(&format!("ab{}]", short)));
    assert!(!has_long_bracket_run(""));
    let ok = format!("<R><Containers/><X><![CDATA[{}]]></X></R>", "]".repeat(100));
    assert!(incomplete_vector_from_response(&ok).unwrap().vector.is_empty());
}

#[test]
fn failed_container_fails_the_page() {
    let body = "<R><Containers><Container><Name>a</Name></Container><Container/><Container><Name>c</Name></Container></Containers></R>";
    match decode_list_response(200, &vec![], body.to_string()) {
        Err(AzureError::PathNotFound(n)) => assert_eq!(n, "Name"),
        other => panic!("unexpected {:?}", other),
    }
    let dup = "<R><Containers><Container><Name>a</Name><Name>b</Name></Container></Containers></R>";
    match incomplete_vector_from_response(dup) {
        Err(AzureError::MultipleNode(n)) => assert_eq!(n, "Name"),
        other => panic!("unexpected {:?}", other),
    }
}

#[test]
fn duplicate_names_are_kept_in_order() {
    let body = page_body(&["b", "a", "b"], Some("m2"));
    let page = incomplete_vector_from_response(&body).unwrap();
    assert_eq!(names_of(&page), vec!["b", "a", "b"]);
    assert_eq!(page.next_marker, Some("m2".to_string()));
}
