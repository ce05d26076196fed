use token_closer::endpoint::get_url;

#[test]
fn url_joins_host_and_key() {
    assert_eq!(get_url("rpc.example.org", "k3y"), "https://rpc.example.org/?api-key=k3y");
}

#[test]
fn url_of_empty_parts() {
    assert_eq!(get_url("", ""), "https:///?api-key=");
}

#[test]
fn url_keeps_its_parts_as_they_are() {
    assert_eq!(get_url("a/b?c", "x&y=z"), "https://a/b?c/?api-key=x&y=z");
}
