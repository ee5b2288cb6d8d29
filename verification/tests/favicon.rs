use server_list_ping::error::{Error, FaviconFault};
use server_list_ping::favicon::{data_parts, decode_favicon, image_of, DataParts, UrlParts};

const PNG_HEAD: [u8; 8] = [0x89, b'P', b'N', b'G', 0x0D, 0x0A, 0x1A, 0x0A];

fn fault(uri: &str) -> FaviconFault {
    match decode_favicon(uri) {
        Err(Error::Favicon(fault)) => fault,
        other => panic!("{uri} gave {other:?}"),
    }
}

fn url(scheme: &str, path: &str) -> UrlParts {
    UrlParts {
        scheme: scheme.to_string(),
        has_authority: false,
        query: None,
        fragment: None,
        path: path.to_string(),
    }
}

#[test]
fn favicon_is_the_bytes_of_its_payload() {
    let payload = base64::encode(PNG_HEAD);
    assert_eq!(payload, "iVBORw0KGgo=");
    let favicon = decode_favicon(&format!("data:image/png;base64,{payload}")).unwrap();
    assert_eq!(favicon.image(), &PNG_HEAD[..]);
    assert_eq!(favicon.media_type(), "image/png");
}

#[test]
fn favicon_of_every_byte_value() {
    let bytes: Vec<u8> = (0..=255).collect();
    let uri = format!("data:image/png;base64,{}", base64::encode(&bytes));
    assert_eq!(decode_favicon(&uri).unwrap().image(), &bytes[..]);
}

#[test]
fn favicon_with_an_empty_payload_is_an_empty_image() {
    assert_eq!(decode_favicon("data:image/png;base64,").unwrap().image(), &[0u8; 0][..]);
}

#[test]
fn favicon_that_is_no_png_is_refused() {
    assert_eq!(fault("data:image/jpeg;base64,AAAA"), FaviconFault::MediaType);
    assert_eq!(fault("data:text/plain;base64,AAAA"), FaviconFault::MediaType);
    assert_eq!(fault("data:;base64,AAAA"), FaviconFault::MediaType);
    assert_eq!(fault("data:image/png;charset=utf-8;base64,AAAA"), FaviconFault::MediaType);
}

#[test]
fn favicon_that_is_not_base64_is_refused() {
    assert_eq!(fault("data:image/png,AAAA"), FaviconFault::Encoding);
    assert_eq!(fault("data:image/png;hex,AAAA"), FaviconFault::Encoding);
    assert_eq!(fault("data:image/png;base64;x,AAAA"), FaviconFault::Encoding);
    assert_eq!(fault("data:image/png;base64,!!!!"), FaviconFault::Payload);
    assert_eq!(fault("data:image/png;base64,A"), FaviconFault::Payload);
}

#[test]
fn favicon_must_be_a_data_uri() {
    assert_eq!(fault("not a url"), FaviconFault::NotAUrl);
    assert_eq!(fault(""), FaviconFault::NotAUrl);
    assert_eq!(fault("http://example.org/image/png;base64,AAAA"), FaviconFault::Scheme);
    assert_eq!(fault("file:image/png;base64,AAAA"), FaviconFault::Scheme);
}

#[test]
fn favicon_uri_has_no_authority_query_or_fragment() {
    assert_eq!(fault("data://host/image/png;base64,AAAA"), FaviconFault::Authority);
    assert_eq!(fault("data:image/png;base64,AAAA?x=1"), FaviconFault::Query);
    assert_eq!(fault("data:image/png;base64,AAAA#top"), FaviconFault::Fragment);
    assert_eq!(fault("data:image/png;base64,AAAA?x=1#top"), FaviconFault::Query);
}

#[test]
fn favicon_uri_needs_a_payload() {
    assert_eq!(fault("data:image/png;base64"), FaviconFault::MissingPayload);
    assert_eq!(fault("data:"), FaviconFault::MissingPayload);
}

#[test]
fn media_type_is_compared_as_a_media_type() {
    let uri = "data:IMAGE/PNG;base64,iVBORw0KGgo=";
    assert_eq!(decode_favicon(uri).unwrap().image(), &PNG_HEAD[..]);
}

#[test]
fn data_uri_is_cut_at_the_last_comma_and_semicolon() {
    assert_eq!(
        data_parts(&url("data", "image/png;base64,AAAA")),
        Ok(DataParts { media_type: "image/png".to_string(), payload: "AAAA".to_string() })
    );
    assert_eq!(
        data_parts(&url("data", "a,b;c;base64,x")),
        Ok(DataParts { media_type: "a,b;c".to_string(), payload: "x".to_string() })
    );
    assert_eq!(
        data_parts(&url("data", ";base64,")),
        Ok(DataParts { media_type: String::new(), payload: String::new() })
    );
}

#[test]
fn data_uri_clauses_in_order() {
    let mut parts = url("http", "image/png,AAAA");
    parts.has_authority = true;
    parts.query = Some("q".to_string());
    parts.fragment = Some("f".to_string());
    assert_eq!(data_parts(&parts), Err(Error::Favicon(FaviconFault::Scheme)));
    parts.scheme = "data".to_string();
    assert_eq!(data_parts(&parts), Err(Error::Favicon(FaviconFault::Authority)));
    parts.has_authority = false;
    assert_eq!(data_parts(&parts), Err(Error::Favicon(FaviconFault::Query)));
    parts.query = None;
    assert_eq!(data_parts(&parts), Err(Error::Favicon(FaviconFault::Fragment)));
    parts.fragment = None;
    assert_eq!(data_parts(&parts), Err(Error::Favicon(FaviconFault::Encoding)));
    parts.path = "image/png".to_string();
    assert_eq!(data_parts(&parts), Err(Error::Favicon(FaviconFault::MissingPayload)));
}

#[test]
fn image_of_media_type_and_payload() {
    let png = DataParts { media_type: "image/png".to_string(), payload: "AQID".to_string() };
    assert_eq!(image_of(&png).unwrap().image(), &[1u8, 2, 3][..]);
    let gif = DataParts { media_type: "image/gif".to_string(), payload: "AQID".to_string() };
    assert_eq!(image_of(&gif), Err(Error::Favicon(FaviconFault::MediaType)));
    let none = DataParts { media_type: "png".to_string(), payload: "AQID".to_string() };
    assert_eq!(image_of(&none), Err(Error::Favicon(FaviconFault::MediaType)));
    let bad = DataParts { media_type: "image/png".to_string(), payload: "A".to_string() };
    assert_eq!(image_of(&bad), Err(Error::Favicon(FaviconFault::Payload)));
}
