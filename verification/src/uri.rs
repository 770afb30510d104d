//! URIs as the sink sees them: three optional components, each held as text.

use vstd::prelude::*;
use vstd::string::*;

verus! {

/// The error of `http` for a text that is no URI.
#[verifier::external_type_specification]
#[verifier::external_body]
pub struct ExInvalidUri(http::uri::InvalidUri);

/// The three components of a URI, as text.
pub struct UriView {
    pub scheme: Option<Seq<char>>,
    pub authority: Option<Seq<char>>,
    pub path_and_query: Option<Seq<char>>,
}

impl UriView {
    /// The components can stand together: a URI with a scheme has all three, and
    /// one without a scheme does not have both of the others.
    pub open spec fn well_formed(self) -> bool {
        if self.scheme is Some {
            self.authority is Some && self.path_and_query is Some
        } else {
            self.authority is None || self.path_and_query is None
        }
    }

    /// All three components are there.
    pub open spec fn is_absolute(self) -> bool {
        self.scheme is Some && self.authority is Some && self.path_and_query is Some
    }

    /// If there is a path, it is not empty.
    pub open spec fn has_no_empty_path(self) -> bool {
        self.path_and_query matches Some(path_and_query) ==> path_and_query.len() > 0
    }

    /// The URI as one text.
    pub open spec fn text(self) -> Seq<char> {
        let scheme = match self.scheme {
            Some(scheme) => scheme + "://"@,
            None => Seq::empty(),
        };
        let authority = match self.authority {
            Some(authority) => authority,
            None => Seq::empty(),
        };
        let path_and_query = match self.path_and_query {
            Some(path_and_query) => path_and_query,
            None => Seq::empty(),
        };
        scheme + authority + path_and_query
    }
}

/// The text of an optional string.
pub open spec fn optional_text(text: Option<String>) -> Option<Seq<char>> {
    match text {
        Some(text) => Some(text@),
        None => None,
    }
}

/// The components of a URI before it is known whether they can stand together.
#[derive(Debug)]
pub struct Parts {
    pub scheme: Option<String>,
    pub authority: Option<String>,
    pub path_and_query: Option<String>,
}

impl View for Parts {
    type V = UriView;

    open spec fn view(&self) -> UriView {
        UriView {
            scheme: optional_text(self.scheme),
            authority: optional_text(self.authority),
            path_and_query: optional_text(self.path_and_query),
        }
    }
}

impl Clone for Parts {
    fn clone(&self) -> (copy: Parts)
        ensures
            copy == *self,
    {
        Parts {
            scheme: self.scheme.clone(),
            authority: self.authority.clone(),
            path_and_query: self.path_and_query.clone(),
        }
    }
}

/// Why components cannot stand together as a URI.
#[derive(Clone, Copy, Debug, PartialEq, Eq, Structural)]
pub enum InvalidUriParts {
    /// There is an authority and a path, but no scheme.
    SchemeMissing,
    /// There is a scheme, but no authority.
    AuthorityMissing,
    /// There is a scheme and an authority, but no path.
    PathAndQueryMissing,
}

impl InvalidUriParts {
    /// The text of the error, as `http` words it.
    pub fn message(&self) -> (message: &'static str)
        ensures
            message@ == match self {
                InvalidUriParts::SchemeMissing => "scheme missing"@,
                InvalidUriParts::AuthorityMissing => "authority missing"@,
                InvalidUriParts::PathAndQueryMissing => "path missing"@,
            },
    {
        match self {
            InvalidUriParts::SchemeMissing => "scheme missing",
            InvalidUriParts::AuthorityMissing => "authority missing",
            InvalidUriParts::PathAndQueryMissing => "path missing",
        }
    }
}

/// A URI: components that can stand together.
#[derive(Debug)]
pub struct Uri {
    parts: Parts,
}

impl View for Uri {
    type V = UriView;

    closed spec fn view(&self) -> UriView {
        self.parts@
    }
}

impl Clone for Uri {
    fn clone(&self) -> (copy: Uri)
        ensures
            copy == *self,
    {
        proof {
            use_type_invariant(self);
        }
        Uri { parts: self.parts.clone() }
    }
}

/// What is missing of the components, if anything is.
pub open spec fn missing_part(parts: UriView) -> Option<InvalidUriParts> {
    if parts.scheme is Some {
        if parts.authority is None {
            Some(InvalidUriParts::AuthorityMissing)
        } else if parts.path_and_query is None {
            Some(InvalidUriParts::PathAndQueryMissing)
        } else {
            None
        }
    } else if parts.authority is Some && parts.path_and_query is Some {
        Some(InvalidUriParts::SchemeMissing)
    } else {
        None
    }
}

impl Uri {
    #[verifier::type_invariant]
    closed spec fn type_ok(self) -> bool {
        self@.well_formed()
    }

    /// Puts components together to a URI.
    pub fn from_parts(parts: Parts) -> (r: Result<Uri, InvalidUriParts>)
        ensures
            match missing_part(parts@) {
                Some(missing) => r == Err::<Uri, InvalidUriParts>(missing),
                None => r matches Ok(uri) && uri@ == parts@ && uri@.well_formed(),
            },
    {
        if parts.scheme.is_some() {
            if parts.authority.is_none() {
                return Err(InvalidUriParts::AuthorityMissing);
            }
            if parts.path_and_query.is_none() {
                return Err(InvalidUriParts::PathAndQueryMissing);
            }
        } else {
            if parts.authority.is_some() && parts.path_and_query.is_some() {
                return Err(InvalidUriParts::SchemeMissing);
            }
        }
        Ok(Uri { parts })
    }

    /// Takes a URI apart.
    pub fn into_parts(self) -> (parts: Parts)
        ensures
            parts@ == self@,
            parts@.well_formed(),
    {
        proof {
            use_type_invariant(&self);
        }
        self.parts
    }

    /// The URI as one text.
    pub fn text(&self) -> (text: String)
        ensures
            text@ == self@.text(),
    {
        let mut text = String::new();
        if let Some(scheme) = &self.parts.scheme {
            text.append(scheme.as_str());
            text.append("://");
        }
        if let Some(authority) = &self.parts.authority {
            text.append(authority.as_str());
        }
        if let Some(path_and_query) = &self.parts.path_and_query {
            text.append(path_and_query.as_str());
        }
        text
    }
}

/// What `http` reads a text as: the components of a URI, or its refusal.
pub uninterp spec fn parsed_uri(text: Seq<char>) -> Result<UriView, http::uri::InvalidUri>;

/// The longest text, in characters, that `http` takes for a URI.
pub const MAX_URI_LEN: usize = 65_534;

/// How many characters of a resolved address its address may lack: those of `https://`
/// and `/`.
pub const MAX_ADDED_LEN: usize = 9;

/// The text of the URI reads as that URI again, unless it is too long to be read.
pub open spec fn reads_back(uri: UriView) -> bool {
    uri.text().len() <= MAX_URI_LEN ==> parsed_uri(uri.text()) == Ok::<_, http::uri::InvalidUri>(
        uri,
    )
}

/// The URI that is nothing but an authority.
pub open spec fn authority_only(authority: Seq<char>) -> UriView {
    UriView { scheme: None, authority: Some(authority), path_and_query: None }
}

/// The URI of the root path of an authority.
pub open spec fn root_of(scheme: Seq<char>, authority: Seq<char>) -> UriView {
    UriView { scheme: Some(scheme), authority: Some(authority), path_and_query: Some("/"@) }
}

/// What holds of a text and of the URI that it reads as.
///
/// The text has all three components; or it is, as a whole, the authority and nothing
/// else; or it is a path with no scheme and no authority. The path is not empty: one that
/// is left out after an authority is `/`, the only character that the text may lack. The
/// URI prints to a text that reads as the same again. Where the text is an authority, the
/// same holds of that authority with the scheme `http` or `https` and the path `/`.
pub open spec fn is_reading(text: Seq<char>, uri: UriView) -> bool {
    &&& {
        ||| uri.is_absolute()
        ||| uri == authority_only(text)
        ||| uri.scheme is None && uri.authority is None && uri.path_and_query is Some
    }
    &&& uri.has_no_empty_path()
    &&& text.len() <= MAX_URI_LEN
    &&& uri.text().len() <= text.len() + 1
    &&& reads_back(uri)
    &&& uri == authority_only(text) ==> {
        &&& reads_back(root_of("http"@, text))
        &&& reads_back(root_of("https"@, text))
    }
}

/// Reads a text with `<http::Uri as FromStr>::from_str`, and takes what came out
/// apart with `http::Uri::into_parts`.
///
/// Claimed of the outside code: the outcome is a function of the text, and where it is a
/// URI, all of `is_reading` holds of the two.
#[verifier::external_body]
fn parse_uri(text: &str) -> (r: Result<Parts, http::uri::InvalidUri>)
    ensures
        match parsed_uri(text@) {
            Ok(uri) => r matches Ok(parts) && parts@ == uri,
            Err(refusal) => r == Err::<Parts, http::uri::InvalidUri>(refusal),
        },
        r matches Ok(parts) ==> is_reading(text@, parts@),
{
    let parts = text.parse::<http::Uri>()?.into_parts();
    Ok(Parts {
        scheme: parts.scheme.map(|scheme| scheme.to_string()),
        authority: parts.authority.map(|authority| authority.to_string()),
        path_and_query: parts.path_and_query.map(|path| path.to_string()),
    })
}

impl Uri {
    /// Reads a text as a URI.
    pub fn read(text: &str) -> (r: Result<Uri, http::uri::InvalidUri>)
        ensures
            match parsed_uri(text@) {
                Ok(read) => r matches Ok(uri) && uri@ == read,
                Err(refusal) => r == Err::<Uri, http::uri::InvalidUri>(refusal),
            },
            r matches Ok(uri) ==> uri@.well_formed() && is_reading(text@, uri@),
    {
        let parts = parse_uri(text)?;
        Ok(Uri { parts })
    }
}

/// Why an address gives no URI to connect to.
#[derive(Debug)]
pub enum AddressError {
    /// The address is no URI.
    InvalidUri(http::uri::InvalidUri),
    /// The address is a URI that stays incomplete with a scheme.
    InvalidUriParts(InvalidUriParts),
}

/// The scheme of an address that names none.
pub open spec fn default_scheme(tls: bool) -> Seq<char> {
    if tls {
        "https"@
    } else {
        "http"@
    }
}

/// A URI with its scheme, if it has one; else with the default scheme, and with the
/// path `/` where it had none. Without an authority there is nothing to connect to.
pub open spec fn scheme_defaulted(uri: UriView, tls: bool) -> Result<UriView, InvalidUriParts> {
    if uri.scheme is Some {
        Ok(uri)
    } else if uri.authority is None {
        Err(InvalidUriParts::AuthorityMissing)
    } else {
        Ok(
            UriView {
                scheme: Some(default_scheme(tls)),
                authority: uri.authority,
                path_and_query: match uri.path_and_query {
                    Some(path_and_query) => Some(path_and_query),
                    None => Some("/"@),
                },
            },
        )
    }
}

/// Gives a URI that has no scheme the default one.
pub fn default_scheme_of(uri: Uri, tls: bool) -> (r: Result<Uri, InvalidUriParts>)
    ensures
        match scheme_defaulted(uri@, tls) {
            Ok(defaulted) => r matches Ok(uri) && uri@ == defaulted,
            Err(missing) => r == Err::<Uri, InvalidUriParts>(missing),
        },
        r matches Ok(uri) ==> uri@.is_absolute(),
{
    proof {
        use_type_invariant(&uri);
    }
    if uri.parts.scheme.is_none() {
        let mut parts = uri.into_parts();
        parts.scheme = if tls {
            Some("https".to_owned())
        } else {
            Some("http".to_owned())
        };
        if parts.path_and_query.is_none() {
            parts.path_and_query = Some("/".to_owned());
        }
        Uri::from_parts(parts)
    } else {
        Ok(uri)
    }
}

/// The URI that an address stands for, with TLS on or off.
pub open spec fn resolved(address: Seq<char>, tls: bool) -> Result<UriView, AddressError> {
    match parsed_uri(address) {
        Err(refusal) => Err(AddressError::InvalidUri(refusal)),
        Ok(uri) => match scheme_defaulted(uri, tls) {
            Ok(defaulted) => Ok(defaulted),
            Err(missing) => Err(AddressError::InvalidUriParts(missing)),
        },
    }
}

/// Reads an address as the URI to connect to.
///
/// gRPC needs a scheme: an address without one gets `https` where TLS is on, and
/// `http` where it is off.
pub fn with_default_scheme(address: &str, tls: bool) -> (r: Result<Uri, AddressError>)
    ensures
        match resolved(address@, tls) {
            Ok(resolved) => r matches Ok(uri) && uri@ == resolved,
            Err(error) => r == Err::<Uri, AddressError>(error),
        },
        parsed_uri(address@) matches Ok(uri) ==> uri.well_formed() && is_reading(address@, uri),
        // A scheme that is given stays, and so does all else of the URI.
        parsed_uri(address@) matches Ok(read) ==> read.scheme is Some ==> (r is Ok && r->Ok_0@
            == read),
        // Whatever the address, there is everything in the result that a connection needs.
        r matches Ok(uri) ==> uri@.is_absolute() && uri@.has_no_empty_path(),
        // An address without a scheme stands between the default scheme and the path `/`.
        r matches Ok(uri) ==> parsed_uri(address@)->Ok_0.scheme is None ==> uri@.text()
            == default_scheme(tls) + "://"@ + address@ + "/"@,
        // At most the default scheme and the path `/` come on top of the address.
        r matches Ok(uri) ==> uri@.text().len() <= address@.len() + MAX_ADDED_LEN,
        // The text of the result is an address of the same URI, with TLS on or off.
        r matches Ok(uri) ==> reads_back(uri@) && forall|other: bool|
            uri@.text().len() <= MAX_URI_LEN || address@.len() + MAX_ADDED_LEN <= MAX_URI_LEN
                ==> resolved(uri@.text(), other) == Ok::<_, AddressError>(uri@),
{
    proof {
        reveal_strlit("http");
        reveal_strlit("https");
        reveal_strlit("://");
        reveal_strlit("/");
    }
    match Uri::read(address) {
        Ok(uri) => match default_scheme_of(uri, tls) {
            Ok(uri) => Ok(uri),
            Err(missing) => Err(AddressError::InvalidUriParts(missing)),
        },
        Err(refusal) => Err(AddressError::InvalidUri(refusal)),
    }
}

} // verus!
