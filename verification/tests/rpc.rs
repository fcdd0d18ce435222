use stress4844::rpc::http_provider;

#[test]
fn http_endpoint_is_accepted() {
    assert_eq!(
        http_provider("http://localhost:8545"),
        Ok(String::from("http://localhost:8545"))
    );
}

#[test]
fn https_endpoint_is_accepted() {
    assert_eq!(
        http_provider("https://rpc.example.org"),
        Ok(String::from("https://rpc.example.org"))
    );
}

#[test]
fn other_schemes_are_rejected_with_a_message() {
    assert_eq!(
        http_provider("ftp://rpc.example.org"),
        Err(String::from("URL does not start with http(s): ftp://rpc.example.org"))
    );
}

#[test]
fn empty_and_partial_prefixes_are_rejected() {
    assert!(http_provider("").is_err());
    assert!(http_provider("http:/x").is_err());
    assert!(http_provider("htt").is_err());
}
