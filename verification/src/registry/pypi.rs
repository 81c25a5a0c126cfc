//! The Python package index.

use crate::error::TransportError;
use crate::http_client::{Fetched, GenericHttpClient, Request, RequestView};
use crate::package::{Package, PackageView};
use crate::registry::{endpoint, Registry};
use crate::text::option_text;
use vstd::prelude::*;

verus! {

/// The Python community's package registry.
#[derive(Debug, Clone, Copy, PartialEq, Eq, Structural)]
pub struct PyPI;

/// What the index says of the latest release of a package.
#[derive(Debug, Clone, PartialEq, Eq)]
pub struct Info {
    pub version: String,
    /// Whether the release was withdrawn.
    pub yanked: bool,
}

/// The index's answer for one package.
#[derive(Debug, Clone, PartialEq, Eq)]
pub struct Response {
    pub info: Info,
}

/// The address under which the index lists packages.
pub fn get_base_url() -> (url: String)
    ensures
        url@ == "https://pypi.org/pypi"@,
{
    "https://pypi.org/pypi".to_owned()
}

/// The address of the description of `pkg`.
pub open spec fn description_url(pkg: PackageView) -> Seq<char> {
    "https://pypi.org/pypi"@ + seq!['/'] + pkg.display() + "/json"@
}

/// The version of the release, unless the release was withdrawn.
pub open spec fn offered(response: Response) -> Option<Seq<char>> {
    if response.info.yanked {
        None
    } else {
        Some(response.info.version@)
    }
}

impl Registry for PyPI {
    type Response = Response;

    fn name() -> (name: String)
        ensures
            name@ == "pypi"@,
    {
        "pypi".to_owned()
    }

    fn request<T>(http_client: GenericHttpClient<T>, pkg: &Package) -> (request: Request<T>)
        ensures
            request@ == (RequestView { url: description_url(pkg@), ..http_client@ }),
            request.client == http_client.backend(),
    {
        let url = endpoint(get_base_url().as_str(), pkg, "/json");
        http_client.get(url.as_str())
    }

    fn get_latest_version(fetched: Fetched<Response>) -> (r: Result<Option<String>, TransportError>)
        ensures
            match fetched.body() {
                Some(response) => r matches Ok(latest) && option_text(latest) == offered(response),
                None => r matches Err(e) && e@ == fetched.failure(),
            },
    {
        let response = fetched.settle()?;
        if !response.info.yanked {
            Ok(Some(response.info.version))
        } else {
            Ok(None)
        }
    }
}

} // verus!
