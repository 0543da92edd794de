use hydra_shields_endpoint::model::Jobset;
use hydra_shields_endpoint::remote::{
    build_path, build_url, evaluations_path, evaluations_url, headers, join, parse_base,
};
use hydra_shields_endpoint::response::EndpointError;
use hydra_shields_endpoint::text::decimal_text;

fn jobset(project: &str, name: &str) -> Jobset {
    Jobset { project: project.to_string(), name: name.to_string() }
}

#[test]
fn decimal_text_of_small_values() {
    assert_eq!(decimal_text(0), "0");
    assert_eq!(decimal_text(7), "7");
    assert_eq!(decimal_text(10), "10");
    assert_eq!(decimal_text(1234567890), "1234567890");
    assert_eq!(decimal_text(-1), "-1");
    assert_eq!(decimal_text(-305), "-305");
}

#[test]
fn decimal_text_of_extremes() {
    assert_eq!(decimal_text(i32::MAX), "2147483647");
    assert_eq!(decimal_text(i32::MIN), "-2147483648");
}

#[test]
fn decimal_text_agrees_with_std() {
    let mut value: i32 = -2_000_000_000;
    while value < 2_000_000_000 {
        assert_eq!(decimal_text(value), format!("{}", value));
        value += 7_654_321;
    }
    for value in -1000..1000 {
        assert_eq!(decimal_text(value), format!("{}", value));
    }
}

#[test]
fn build_path_is_build_slash_id() {
    assert_eq!(build_path(1), "build/1");
    assert_eq!(build_path(298765), "build/298765");
    assert_eq!(build_path(-4), "build/-4");
}

#[test]
fn evaluations_path_names_project_and_jobset() {
    assert_eq!(evaluations_path(&jobset("myproj", "trunk")), "jobset/myproj/trunk/evals");
    assert_eq!(evaluations_path(&jobset("", "")), "jobset///evals");
}

#[test]
fn jobset_text_is_project_colon_name() {
    assert_eq!(jobset("myproj", "trunk").to_string(), "myproj:trunk");
    assert_eq!(jobset("a:b", "c").to_string(), "a:b:c");
    assert_eq!(jobset("", "").to_string(), ":");
}

#[test]
fn parse_base_gives_the_normal_form() {
    assert_eq!(parse_base("https://hydra.example/").unwrap(), "https://hydra.example/");
    assert_eq!(parse_base("HTTPS://Hydra.Example").unwrap(), "https://hydra.example/");
    assert_eq!(parse_base("https://hydra.example:443/a/../b").unwrap(), "https://hydra.example/b");
}

#[test]
fn parse_base_rejects_what_is_no_url() {
    match parse_base("hydra.example") {
        Err(EndpointError::UrlParse(text)) => {
            assert_eq!(text, url::Url::parse("hydra.example").unwrap_err().to_string());
            assert_eq!(text, "relative URL without a base");
        }
        _ => panic!("a relative URL is no base URL"),
    }
    assert!(matches!(parse_base(""), Err(EndpointError::UrlParse(_))));
    assert!(matches!(parse_base("https://"), Err(EndpointError::UrlParse(_))));
}

#[test]
fn join_resolves_against_the_base() {
    assert_eq!(join("https://hydra.example/", "build/1").unwrap(), "https://hydra.example/build/1");
    assert_eq!(join("https://hydra.example/ci/", "build/1").unwrap(), "https://hydra.example/ci/build/1");
    assert_eq!(join("https://hydra.example/ci", "build/1").unwrap(), "https://hydra.example/build/1");
}

#[test]
fn join_on_unreadable_base_is_a_url_error() {
    assert!(matches!(join("not a url", "build/1"), Err(EndpointError::UrlParse(_))));
}

#[test]
fn join_that_forms_no_url_is_a_url_error() {
    match join("https://hydra.example/", "//[bad") {
        Err(EndpointError::UrlParse(text)) => {
            let base = url::Url::parse("https://hydra.example/").unwrap();
            assert_eq!(text, base.join("//[bad").unwrap_err().to_string());
        }
        _ => panic!("an unclosed IPv6 host forms no URL"),
    }
}

#[test]
fn join_agrees_with_url_join() {
    let bases = ["https://hydra.example/", "http://h.example/a/b", "https://h.example:8080/x/"];
    let paths = ["build/1", "jobset/p/j/evals", "/abs", "../up", "?q=1", "jobset/a b/c/evals"];
    for base in bases {
        for path in paths {
            let expected = url::Url::parse(base).unwrap().join(path).unwrap();
            assert_eq!(join(base, path).unwrap(), expected.as_str());
        }
    }
}

#[test]
fn build_url_on_base_with_trailing_slash() {
    assert_eq!(build_url("https://hydra.example/", 1).unwrap(), "https://hydra.example/build/1");
}

#[test]
fn evaluations_url_on_base_with_trailing_slash() {
    assert_eq!(
        evaluations_url("https://hydra.example/", &jobset("myproj", "trunk")).unwrap(),
        "https://hydra.example/jobset/myproj/trunk/evals"
    );
}

#[test]
fn headers_ask_for_json_and_name_the_client() {
    assert_eq!(
        headers(),
        vec![
            ("accept".to_string(), "application/json".to_string()),
            ("user-agent".to_string(), "hydra-shields-endpoint".to_string()),
        ]
    );
}
