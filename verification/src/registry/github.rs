//! GitHub, as a registry of the releases of repositories.

use crate::error::TransportError;
use crate::http_client::{Fetched, GenericHttpClient, Request, RequestView};
use crate::package::{Package, PackageView};
use crate::registry::{endpoint, Registry};
use crate::text::option_text;
use crate::version::{strip_v, without_v};
use vstd::prelude::*;

verus! {

/// The most popular and largest project hosting.
#[derive(Debug, Clone, Copy, PartialEq, Eq, Structural)]
pub struct GitHub;

/// The latest release of a repository.
#[derive(Debug, Clone, PartialEq, Eq)]
pub struct Response {
    pub tag_name: String,
}

/// The address under which GitHub lists repositories.
pub fn get_base_url() -> (url: String)
    ensures
        url@ == "https://api.github.com/repos"@,
{
    "https://api.github.com/repos".to_owned()
}

/// The address of the latest release of `pkg`.
pub open spec fn latest_release_url(pkg: PackageView) -> Seq<char> {
    "https://api.github.com/repos"@ + seq!['/'] + pkg.display() + "/releases/latest"@
}

impl Registry for GitHub {
    type Response = Response;

    fn name() -> (name: String)
        ensures
            name@ == "github"@,
    {
        "github".to_owned()
    }

    /// The request names the version of the interface that it expects.
    fn request<T>(http_client: GenericHttpClient<T>, pkg: &Package) -> (request: Request<T>)
        ensures
            request@ == (RequestView {
                url: latest_release_url(pkg@),
                headers: Some(("Accept"@, "application/vnd.github.v3+json"@)),
                ..http_client@
            }),
            request.client == http_client.backend(),
    {
        let url = endpoint(get_base_url().as_str(), pkg, "/releases/latest");
        http_client.headers(("Accept", "application/vnd.github.v3+json")).get(url.as_str())
    }

    /// The tag of the release, without the `v` that it may start with.
    fn get_latest_version(fetched: Fetched<Response>) -> (r: Result<Option<String>, TransportError>)
        ensures
            match fetched.body() {
                Some(response) => r matches Ok(latest) && option_text(latest) == Some(
                    strip_v(response.tag_name@),
                ),
                None => r matches Err(e) && e@ == fetched.failure(),
            },
    {
        let response = fetched.settle()?;
        Ok(Some(without_v(response.tag_name.as_str())))
    }
}

} // verus!
