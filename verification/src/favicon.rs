//! The favicon of a status: a PNG image that arrives as a `data:` URI
//! with a base64 payload.

use vstd::prelude::*;
use vstd::string::StrSliceExecFns;
use crate::error::{Error, FaviconFault};
use crate::text::{chars_of, find_last, lemma_last_is, same_chars};

verus! {

/// The media type that a favicon must have.
pub const FAVICON_MEDIA_TYPE: &'static str = "image/png";

/// A favicon: the bytes of a PNG image.
#[derive(Debug, Clone, PartialEq, Eq)]
pub struct Favicon {
    image: Vec<u8>,
}

impl View for Favicon {
    type V = Seq<u8>;

    closed spec fn view(&self) -> Seq<u8> {
        self.image@
    }
}

impl Favicon {
    /// The bytes of the image.
    pub fn image(&self) -> (bytes: &[u8])
        ensures
            bytes@ == self@,
    {
        self.image.as_slice()
    }

    /// The media type of the image.
    pub fn media_type(&self) -> (name: &'static str)
        ensures
            name@ == FAVICON_MEDIA_TYPE@,
    {
        FAVICON_MEDIA_TYPE
    }
}

/// What a URL consists of, as far as a favicon is concerned.
#[derive(Debug, Clone, PartialEq, Eq)]
pub struct UrlParts {
    pub scheme: String,
    pub has_authority: bool,
    pub query: Option<String>,
    pub fragment: Option<String>,
    pub path: String,
}

/// The parts of a `data:` URI that holds base64: the media type it
/// names and its payload.
#[derive(Debug, Clone, PartialEq, Eq)]
pub struct DataParts {
    pub media_type: String,
    pub payload: String,
}

/// The text of an optional string.
pub open spec fn spec_text(s: Option<String>) -> Option<Seq<char>> {
    match s {
        Some(s) => Some(s@),
        None => None,
    }
}

/// What `Url::parse` of the url crate makes of `text`, read off with the
/// `Url`'s own `scheme`, `has_authority`, `query`, `fragment` and `path`,
/// in this order; `None` where `text` is no URL.
pub uninterp spec fn url_parts(text: Seq<char>) -> Option<
    (Seq<char>, bool, Option<Seq<char>>, Option<Seq<char>>, Seq<char>),
>;

/// Whether the mime crate takes `a` and `b` for the same media type,
/// where it takes both for media types at all; `None` where not.
pub uninterp spec fn mime_equal(a: Seq<char>, b: Seq<char>) -> Option<bool>;

/// The bytes that `decode` of the base64 crate reads from `text`;
/// `None` where it refuses `text`.
pub uninterp spec fn base64_decoded(text: Seq<char>) -> Option<Seq<u8>>;

/// The media type and the payload of a `data:` URI that holds base64,
/// or the first clause that the URL does not meet. The payload is what
/// follows the last comma of the path; what stands before that comma
/// must end in `;base64`, and the media type is what precedes that.
pub open spec fn spec_data_parts(
    scheme: Seq<char>,
    has_authority: bool,
    query: Option<Seq<char>>,
    fragment: Option<Seq<char>>,
    path: Seq<char>,
) -> Result<(Seq<char>, Seq<char>), Error> {
    if scheme != "data"@ {
        Err(Error::Favicon(FaviconFault::Scheme))
    } else if has_authority {
        Err(Error::Favicon(FaviconFault::Authority))
    } else if query is Some {
        Err(Error::Favicon(FaviconFault::Query))
    } else if fragment is Some {
        Err(Error::Favicon(FaviconFault::Fragment))
    } else {
        match path.index_of_last(',') {
            None => Err(Error::Favicon(FaviconFault::MissingPayload)),
            Some(comma) => {
                let header = path.take(comma);
                match header.index_of_last(';') {
                    None => Err(Error::Favicon(FaviconFault::Encoding)),
                    Some(semicolon) => if header.skip(semicolon + 1) != "base64"@ {
                        Err(Error::Favicon(FaviconFault::Encoding))
                    } else {
                        Ok((header.take(semicolon), path.skip(comma + 1)))
                    },
                }
            },
        }
    }
}

/// The image of a `data:` URI of the given media type and payload.
pub open spec fn spec_image(media_type: Seq<char>, payload: Seq<char>) -> Result<Seq<u8>, Error> {
    if mime_equal(media_type, FAVICON_MEDIA_TYPE@) != Some(true) {
        Err(Error::Favicon(FaviconFault::MediaType))
    } else {
        match base64_decoded(payload) {
            Some(image) => Ok(image),
            None => Err(Error::Favicon(FaviconFault::Payload)),
        }
    }
}

/// The image that a favicon's URI holds, or the clause that the URI
/// does not meet.
pub open spec fn spec_decode_favicon(uri: Seq<char>) -> Result<Seq<u8>, Error> {
    match url_parts(uri) {
        None => Err(Error::Favicon(FaviconFault::NotAUrl)),
        Some((scheme, has_authority, query, fragment, path)) => match spec_data_parts(
            scheme,
            has_authority,
            query,
            fragment,
            path,
        ) {
            Err(e) => Err(e),
            Ok((media_type, payload)) => spec_image(media_type, payload),
        },
    }
}

/// A `data:` URI whose path is `image/png;base64,` and a payload
/// without a comma names the media type `image/png`, and its payload
/// is that payload, whole.
pub proof fn lemma_png_data_parts(payload: Seq<char>)
    requires
        !payload.contains(','),
    ensures
        spec_data_parts("data"@, false, None, None, "image/png;base64,"@ + payload) == Ok::<
            (Seq<char>, Seq<char>),
            Error,
        >((FAVICON_MEDIA_TYPE@, payload)),
{
    reveal_strlit("image/png;base64,");
    reveal_strlit("image/png");
    reveal_strlit("base64");
    let head = "image/png;base64,"@;
    let path = head + payload;
    assert forall|j: int| 16 < j < path.len() implies path[j] != ',' by {
        assert(path[j] == payload[j - 17]);
    }
    lemma_last_is(path, ',', 16);
    let header = path.take(16);
    lemma_last_is(header, ';', 9);
    assert(header.skip(10) =~= "base64"@);
    assert(header.take(9) =~= "image/png"@);
    assert(path.skip(17) =~= payload);
}

/// `Url::parse` of the url crate, and of the `Url` it gives its
/// `scheme`, `has_authority`, `query`, `fragment` and `path`. The
/// contract gives the five results together the name `url_parts`,
/// `None` standing for a text that `Url::parse` refused; it claims
/// nothing else.
#[verifier::external_body]
fn split_url(text: &str) -> (res: Option<UrlParts>)
    ensures
        match res {
            Some(parts) => url_parts(text@) == Some(
                (
                    parts.scheme@,
                    parts.has_authority,
                    spec_text(parts.query),
                    spec_text(parts.fragment),
                    parts.path@,
                ),
            ),
            None => url_parts(text@) is None,
        },
{
    match url::Url::parse(text) {
        Ok(url) => Some(
            UrlParts {
                scheme: url.scheme().to_string(),
                has_authority: url.has_authority(),
                query: url.query().map(str::to_string),
                fragment: url.fragment().map(str::to_string),
                path: url.path().to_string(),
            },
        ),
        Err(_) => None,
    }
}

/// `from_str` and `eq` of the mime crate's `Mime`. The contract gives
/// the result the name `mime_equal`, `None` standing for a text that
/// `from_str` refused; it claims nothing else.
#[verifier::external_body]
fn media_types_equal(a: &str, b: &str) -> (res: Option<bool>)
    ensures
        res == mime_equal(a@, b@),
{
    match (a.parse::<mime::Mime>(), b.parse::<mime::Mime>()) {
        (Ok(a), Ok(b)) => Some(a == b),
        _ => None,
    }
}

/// `decode` of the base64 crate. The contract gives the result the name
/// `base64_decoded`, `None` standing for a text that `decode` refused;
/// it claims nothing else.
#[verifier::external_body]
fn base64_decode(text: &str) -> (res: Option<Vec<u8>>)
    ensures
        match res {
            Some(bytes) => base64_decoded(text@) == Some(bytes@),
            None => base64_decoded(text@) is None,
        },
{
    base64::decode(text).ok()
}

/// Checks that a URL is a `data:` URI that holds base64, and cuts its
/// path into the media type and the payload.
pub fn data_parts(url: &UrlParts) -> (res: Result<DataParts, Error>)
    ensures
        match res {
            Ok(parts) => spec_data_parts(
                url.scheme@,
                url.has_authority,
                spec_text(url.query),
                spec_text(url.fragment),
                url.path@,
            ) == Ok::<(Seq<char>, Seq<char>), Error>((parts.media_type@, parts.payload@)),
            Err(e) => spec_data_parts(
                url.scheme@,
                url.has_authority,
                spec_text(url.query),
                spec_text(url.fragment),
                url.path@,
            ) == Err::<(Seq<char>, Seq<char>), Error>(e),
        },
{
    let scheme = chars_of(url.scheme.as_str());
    let data = chars_of("data");
    if !same_chars(scheme.as_slice(), data.as_slice()) {
        return Err(Error::Favicon(FaviconFault::Scheme));
    }
    if url.has_authority {
        return Err(Error::Favicon(FaviconFault::Authority));
    }
    if url.query.is_some() {
        return Err(Error::Favicon(FaviconFault::Query));
    }
    if url.fragment.is_some() {
        return Err(Error::Favicon(FaviconFault::Fragment));
    }
    let path = url.path.as_str();
    let chars = chars_of(path);
    let comma = match find_last(chars.as_slice(), ',') {
        Some(comma) => comma,
        None => { return Err(Error::Favicon(FaviconFault::MissingPayload)); },
    };
    let header = vstd::slice::slice_subrange(chars.as_slice(), 0, comma);
    assert(header@ =~= path@.take(comma as int));
    let semicolon = match find_last(header, ';') {
        Some(semicolon) => semicolon,
        None => { return Err(Error::Favicon(FaviconFault::Encoding)); },
    };
    let encoding = vstd::slice::slice_subrange(header, semicolon + 1, comma);
    assert(encoding@ =~= header@.skip(semicolon + 1));
    let base64 = chars_of("base64");
    if !same_chars(encoding, base64.as_slice()) {
        return Err(Error::Favicon(FaviconFault::Encoding));
    }
    let media_type = path.substring_char(0, semicolon);
    let payload = path.substring_char(comma + 1, chars.len());
    assert(media_type@ =~= header@.take(semicolon as int));
    assert(payload@ =~= path@.skip(comma + 1));
    Ok(DataParts { media_type: media_type.to_owned(), payload: payload.to_owned() })
}

/// Reads the image of a `data:` URI that holds base64, of the given
/// media type and payload.
pub fn image_of(parts: &DataParts) -> (res: Result<Favicon, Error>)
    ensures
        match res {
            Ok(favicon) => spec_image(parts.media_type@, parts.payload@) == Ok::<Seq<u8>, Error>(
                favicon@,
            ),
            Err(e) => spec_image(parts.media_type@, parts.payload@) == Err::<Seq<u8>, Error>(e),
        },
{
    match media_types_equal(parts.media_type.as_str(), FAVICON_MEDIA_TYPE) {
        Some(true) => {},
        _ => { return Err(Error::Favicon(FaviconFault::MediaType)); },
    }
    match base64_decode(parts.payload.as_str()) {
        Some(image) => Ok(Favicon { image }),
        None => Err(Error::Favicon(FaviconFault::Payload)),
    }
}

/// Reads a favicon from its URI.
pub fn decode_favicon(uri: &str) -> (res: Result<Favicon, Error>)
    ensures
        match res {
            Ok(favicon) => spec_decode_favicon(uri@) == Ok::<Seq<u8>, Error>(favicon@),
            Err(e) => spec_decode_favicon(uri@) == Err::<Seq<u8>, Error>(e),
        },
{
    let url = match split_url(uri) {
        Some(url) => url,
        None => { return Err(Error::Favicon(FaviconFault::NotAUrl)); },
    };
    match data_parts(&url) {
        Ok(parts) => image_of(&parts),
        Err(e) => Err(e),
    }
}

} // verus!
