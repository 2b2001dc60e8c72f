use vstd::prelude::*;

verus! {

/// What `url::Url::parse` followed by `Url::scheme` yields for a string:
/// `None` where the string is no URL, else the parsed scheme.
pub uninterp spec fn url_scheme(s: Seq<char>) -> Option<Seq<char>>;

/// The scheme that asks for transport security.
pub open spec fn is_secure_scheme(s: Seq<char>) -> bool {
    s == "https"@
}

/// The first `n` entries all parsed, and none of them is secure.
pub open spec fn plain_prefix(schemes: Seq<Option<Seq<char>>>, n: int) -> bool {
    forall|j: int|
        0 <= j < n ==> (#[trigger] schemes[j]) is Some && !is_secure_scheme(
            schemes[j]->Some_0,
        )
}

/// Why a list of endpoints could not be scanned.
#[derive(Debug, Clone, Copy, PartialEq, Eq, Structural)]
pub enum ScanError {
    /// The endpoint at this position is no URL.
    UrlParseFailed(usize),
}

/// The verdict of a scan that walks the schemes in order and stops at the
/// first secure one or at the first that did not parse.
pub open spec fn scan_verdict(
    schemes: Seq<Option<Seq<char>>>,
    r: Result<bool, ScanError>,
) -> bool {
    match r {
        Ok(true) => exists|i: int|
            0 <= i < schemes.len() && plain_prefix(schemes, i) && #[trigger] schemes[i] is Some
                && is_secure_scheme(schemes[i]->Some_0),
        Ok(false) => plain_prefix(schemes, schemes.len() as int),
        Err(ScanError::UrlParseFailed(i)) => i < schemes.len() && plain_prefix(schemes, i as int)
            && schemes[i as int] is None,
    }
}

/// The schemes of a list of endpoints, as the URL parser reads them.
pub open spec fn schemes_of(urls: Seq<String>) -> Seq<Option<Seq<char>>> {
    urls.map_values(|u: String| url_scheme(u@))
}

/// The views of schemes, `None` kept for those that did not parse.
pub open spec fn views_of(schemes: Seq<Option<String>>) -> Seq<Option<Seq<char>>> {
    schemes.map_values(
        |s: Option<String>|
            match s {
                Some(x) => Some(x@),
                None => None,
            },
    )
}

/// Relies on `url::Url::parse` and `Url::scheme`: the parsed scheme, or
/// `None` where the parser refuses the string.
#[verifier::external_body]
fn parse_scheme(s: &str) -> (r: Option<String>)
    ensures
        r matches Some(x) ==> url_scheme(s@) == Some(x@),
        r is None ==> url_scheme(s@) is None,
{
    url::Url::parse(s).ok().map(|u| u.scheme().to_string())
}

/// Whether a scheme is the secure one.
pub fn is_https(scheme: &String) -> (r: bool)
    ensures
        r == is_secure_scheme(scheme@),
{
    let secure = String::from_str("https");
    *scheme == secure
}

/// What the scan does at the endpoint at position `i`, given its parsed
/// scheme: stop with an error, stop with `true`, or go on (`None`).
fn scan_step(scheme: &Option<String>, i: usize) -> (r: Option<Result<bool, ScanError>>)
    ensures
        match scheme {
            None => r == Some(Err::<bool, ScanError>(ScanError::UrlParseFailed(i))),
            Some(s) => if is_secure_scheme(s@) {
                r == Some(Ok::<bool, ScanError>(true))
            } else {
                r is None
            },
        },
{
    match scheme {
        None => Some(Err(ScanError::UrlParseFailed(i))),
        Some(s) => if is_https(s) {
            Some(Ok(true))
        } else {
            None
        },
    }
}

/// Scans already parsed schemes (`None` for an endpoint that did not parse).
pub fn scan_schemes(schemes: &Vec<Option<String>>) -> (r: Result<bool, ScanError>)
    ensures
        scan_verdict(views_of(schemes@), r),
{
    let ghost view = views_of(schemes@);
    let mut i: usize = 0;
    while i < schemes.len()
        invariant
            i <= schemes.len(),
            view == views_of(schemes@),
            plain_prefix(view, i as int),
        decreases schemes.len() - i,
    {
        if let Some(done) = scan_step(&schemes[i], i) {
            assert(view[i as int] is Some || view[i as int] is None);
            return done;
        }
        i = i + 1;
    }
    Ok(false)
}

/// Whether any of the endpoints needs TLS, that is has the `https` scheme.
/// The endpoints are parsed in order, and the scan stops at the first
/// secure one; an endpoint before it that is no URL is an error.
pub fn is_ssl(server_urls: &Vec<String>) -> (r: Result<bool, ScanError>)
    ensures
        scan_verdict(schemes_of(server_urls@), r),
{
    let ghost view = schemes_of(server_urls@);
    let mut i: usize = 0;
    while i < server_urls.len()
        invariant
            i <= server_urls.len(),
            view == schemes_of(server_urls@),
            plain_prefix(view, i as int),
        decreases server_urls.len() - i,
    {
        let scheme = parse_scheme(server_urls[i].as_str());
        if let Some(done) = scan_step(&scheme, i) {
            assert(view[i as int] is Some || view[i as int] is None);
            return done;
        }
        i = i + 1;
    }
    Ok(false)
}

/// Where every endpoint parses, the scan answers whether some endpoint is
/// secure; the order of the endpoints then does not matter.
pub proof fn lemma_scan_of_parsed_urls(schemes: Seq<Option<Seq<char>>>, r: Result<bool, ScanError>)
    requires
        forall|i: int| 0 <= i < schemes.len() ==> (#[trigger] schemes[i]) is Some,
        scan_verdict(schemes, r),
    ensures
        r == Ok::<bool, ScanError>(
            exists|i: int|
                0 <= i < schemes.len() && #[trigger] is_secure_scheme(schemes[i]->Some_0),
        ),
{
    let secure = exists|i: int|
        0 <= i < schemes.len() && #[trigger] is_secure_scheme(schemes[i]->Some_0);
    match r {
        Ok(true) => {},
        Ok(false) => {
            if secure {
                let i = choose|i: int|
                    0 <= i < schemes.len() && #[trigger] is_secure_scheme(schemes[i]->Some_0);
                assert(schemes[i] is Some);
            }
        },
        Err(ScanError::UrlParseFailed(i)) => {
            assert(schemes[i as int] is Some);
        },
    }
}

} // verus!
