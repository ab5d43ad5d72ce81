use github_dev_app::form::Form;

#[test]
fn form_for_the_public_api_posts_to_the_public_site() {
    let form = Form::new(
        "https://api.github.com".to_string(),
        "{\"url\":\"http://localhost\"}".to_string(),
    )
    .expect("the public endpoint must yield a form");

    assert_eq!("https://github.com/settings/apps/new", form.form_endpoint());
    assert_eq!("{\"url\":\"http://localhost\"}", form.manifest());
}

#[test]
fn form_for_another_endpoint_posts_to_that_host() {
    let form = Form::new(
        "https://ghe.example.com/api/v3".to_string(),
        "{}".to_string(),
    )
    .expect("a well-formed endpoint must yield a form");

    assert_eq!("https://ghe.example.com/settings/apps/new", form.form_endpoint());
}

#[test]
fn form_for_an_unusable_endpoint_is_not_built() {
    assert!(Form::new("not a url".to_string(), "{}".to_string()).is_none());
}
