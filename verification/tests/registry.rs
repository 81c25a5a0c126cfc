use update_informer::error::{TransportError, TransportErrorKind};
use update_informer::http_client::{self, Fetched, ReqwestHttpClient, UndefinedHttpClient, UreqHttpClient};
use update_informer::registry::{crates, github, pypi, Crates, GitHub, PyPI};
use update_informer::time::Duration;
use update_informer::{Package, Registry};

fn timeout() -> Duration {
    Duration::from_secs(5)
}

fn not_found<T>() -> Fetched<T> {
    Fetched::Answered { status: 404, body: Err(String::from("expected value at line 1 column 1")) }
}

#[test]
fn crates_failure_test() {
    let pkg = Package::new("repo");
    let client = http_client::new(UreqHttpClient, timeout());
    let request = Crates::request(client, &pkg);
    assert_eq!(request.url, "https://crates.io/api/v1/crates/repo/versions");

    let result = Crates::get_latest_version(not_found());
    assert!(result.is_err());
}

#[test]
fn crates_success_test() {
    let response = crates::Response {
        versions: vec![
            crates::Release { num: "0.1.1".to_string() },
            crates::Release { num: "0.1.0".to_string() },
        ],
    };
    let latest_version = response.versions.first().expect("get latest version").num.clone();

    let result = Crates::get_latest_version(Fetched::Answered { status: 200, body: Ok(response) });

    assert!(result.is_ok());
    assert_eq!(result.expect("get result"), Some(latest_version));
}

#[test]
fn github_failure_test() {
    let pkg = Package::new("owner/repo");
    let client = http_client::new(UreqHttpClient, timeout());
    let request = GitHub::request(client, &pkg);
    assert_eq!(request.url, "https://api.github.com/repos/owner/repo/releases/latest");

    let result = GitHub::get_latest_version(not_found());
    assert!(result.is_err());
}

#[test]
fn github_success_test() {
    let response = github::Response { tag_name: "v1.6.3-canary.1".to_string() };
    let latest_version = response.tag_name[1..].to_string();

    let result = GitHub::get_latest_version(Fetched::Answered { status: 200, body: Ok(response) });

    assert!(result.is_ok());
    assert_eq!(result.expect("get result"), Some(latest_version));
}

#[test]
fn pypi_failure_test() {
    let pkg = Package::new("filprofiler");
    let client = http_client::new(UreqHttpClient, timeout());
    let request = PyPI::request(client, &pkg);
    assert_eq!(request.url, "https://pypi.org/pypi/filprofiler/json");

    let result = PyPI::get_latest_version(not_found());
    assert!(result.is_err());
}

#[test]
fn pypi_success_test() {
    let response = pypi::Response {
        info: pypi::Info { version: "2022.1.1".to_string(), yanked: false },
    };

    let latest_version = "2022.1.1".to_string();
    let result = PyPI::get_latest_version(Fetched::Answered { status: 200, body: Ok(response) });

    assert!(result.is_ok());
    assert_eq!(result.expect("get result"), Some(latest_version));
}

#[test]
fn registries_have_their_names_and_addresses() {
    assert_eq!(Crates::name(), "crates");
    assert_eq!(GitHub::name(), "github");
    assert_eq!(PyPI::name(), "pypi");
    assert_eq!(crates::get_base_url(), "https://crates.io/api/v1/crates");
    assert_eq!(github::get_base_url(), "https://api.github.com/repos");
    assert_eq!(pypi::get_base_url(), "https://pypi.org/pypi");
}

#[test]
fn endpoint_joins_base_package_and_tail() {
    let pkg = Package::new("owner/repo");
    assert_eq!(
        update_informer::registry::endpoint("http://127.0.0.1:1234/repos", &pkg, "/releases/latest"),
        "http://127.0.0.1:1234/repos/owner/repo/releases/latest"
    );
    assert_eq!(update_informer::registry::endpoint("", &Package::new("x"), ""), "/x");
}

#[test]
fn requests_keep_timeout_and_backend() {
    let pkg = Package::new("owner/repo");
    let request = Crates::request(http_client::new(ReqwestHttpClient, Duration::from_secs(30)), &pkg);
    assert_eq!(request.client, ReqwestHttpClient);
    assert_eq!(request.timeout, Duration::from_secs(30));
    assert_eq!(request.headers, None);
    assert_eq!(request.url, "https://crates.io/api/v1/crates/owner/repo/versions");

    let request = PyPI::request(http_client::new(UndefinedHttpClient, timeout()), &pkg);
    assert_eq!(request.client, UndefinedHttpClient);
    assert_eq!(request.timeout, timeout());
    assert_eq!(request.headers, None);
}

#[test]
fn github_request_names_the_interface() {
    let pkg = Package::new("owner/repo");
    let request = GitHub::request(http_client::new(UreqHttpClient, timeout()), &pkg);
    assert_eq!(
        request.headers,
        Some(("Accept".to_string(), "application/vnd.github.v3+json".to_string()))
    );
    assert_eq!(request.timeout, timeout());
}

#[test]
fn headers_replaces_the_header() {
    let request = http_client::new(UreqHttpClient, timeout())
        .headers(("A", "1"))
        .headers(("B", "2"))
        .get("http://localhost/x");
    assert_eq!(request.headers, Some(("B".to_string(), "2".to_string())));
    assert_eq!(request.url, "http://localhost/x");
}

#[test]
fn crates_without_versions_offers_nothing() {
    let response = crates::Response { versions: vec![] };
    let result = Crates::get_latest_version(Fetched::Answered { status: 200, body: Ok(response) });
    assert_eq!(result, Ok(None));
}

#[test]
fn github_tag_without_prefix_is_kept() {
    let response = github::Response { tag_name: "1.6.3".to_string() };
    let result = GitHub::get_latest_version(Fetched::Answered { status: 200, body: Ok(response) });
    assert_eq!(result, Ok(Some("1.6.3".to_string())));
}

#[test]
fn github_tag_loses_one_prefix_only() {
    let response = github::Response { tag_name: "vv1".to_string() };
    let result = GitHub::get_latest_version(Fetched::Answered { status: 200, body: Ok(response) });
    assert_eq!(result, Ok(Some("v1".to_string())));
}

#[test]
fn pypi_yanked_release_offers_nothing() {
    let response = pypi::Response {
        info: pypi::Info { version: "2022.1.1".to_string(), yanked: true },
    };
    let result = PyPI::get_latest_version(Fetched::Answered { status: 200, body: Ok(response) });
    assert_eq!(result, Ok(None));
}

#[test]
fn status_outside_2xx_is_an_error_even_with_a_body() {
    for status in [0u16, 100, 199, 300, 301, 404, 500, 65535] {
        let fetched = Fetched::Answered { status, body: Ok(7u8) };
        assert_eq!(
            fetched.settle(),
            Err(TransportError { kind: TransportErrorKind::Status(status), message: String::new() })
        );
    }
    for status in [200u16, 201, 204, 299] {
        let fetched = Fetched::Answered { status, body: Ok(7u8) };
        assert_eq!(fetched.settle(), Ok(7u8));
    }
}

#[test]
fn body_that_did_not_decode_is_an_error() {
    let fetched: Fetched<u8> = Fetched::Answered { status: 200, body: Err("EOF".to_string()) };
    assert_eq!(
        fetched.settle(),
        Err(TransportError { kind: TransportErrorKind::Malformed, message: "EOF".to_string() })
    );
}

#[test]
fn no_answer_is_an_error() {
    let fetched: Fetched<u8> = Fetched::Unanswered("connection refused".to_string());
    assert_eq!(
        fetched.settle(),
        Err(TransportError {
            kind: TransportErrorKind::Unreachable,
            message: "connection refused".to_string()
        })
    );
    let result = PyPI::get_latest_version(Fetched::Unanswered("timed out".to_string()));
    assert_eq!(
        result,
        Err(TransportError { kind: TransportErrorKind::Unreachable, message: "timed out".to_string() })
    );
}
