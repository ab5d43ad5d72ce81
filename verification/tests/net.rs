use github_dev_app::net::{registration_url, replace_localhost, BindAddress};

#[test]
fn replace_localhost_with_local_ip() {
    let addr = BindAddress { octet_a: 0, octet_b: 0, octet_c: 0, octet_d: 0, port: 8080 };

    let host = replace_localhost(&addr);

    assert_eq!("localhost", host);
}

#[test]
fn replace_localhost_with_remote_ip() {
    let addr = BindAddress { octet_a: 1, octet_b: 2, octet_c: 3, octet_d: 4, port: 8080 };

    let host = replace_localhost(&addr);

    assert_eq!("1.2.3.4", host);
}

#[test]
fn registration_url_shows_host_and_port() {
    let addr = BindAddress { octet_a: 0, octet_b: 0, octet_c: 0, octet_d: 0, port: 64001 };

    assert_eq!("http://localhost:64001", registration_url(&addr));

    let remote = BindAddress { octet_a: 192, octet_b: 168, octet_c: 0, octet_d: 17, port: 80 };

    assert_eq!("http://192.168.0.17:80", registration_url(&remote));
}
