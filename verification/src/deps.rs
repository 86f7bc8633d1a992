//! Outside types and calls that the library's logic carries or makes.
use vstd::prelude::*;

verus! {

/// `uuid::Uuid`, carried as an opaque value.
#[verifier::external_type_specification]
#[verifier::external_body]
pub struct ExUuid(uuid::Uuid);

/// `Clone` of `uuid::Uuid`: the type is `Copy` and its clone is the same
/// identifier.
pub assume_specification[ <uuid::Uuid as Clone>::clone ](u: &uuid::Uuid) -> (r: uuid::Uuid)
    ensures
        r == *u,
;

/// A point in time in UTC: seconds since the Unix epoch and the nanoseconds
/// past that second, the two numbers a `chrono::DateTime<Utc>` is made of.
#[derive(Clone, Copy, Debug, PartialEq, Eq, Structural)]
pub struct Timestamp {
    pub secs: i64,
    pub nanos: u32,
}

/// Calls `uuid::Uuid::new_v4`. The identifier is random, so nothing is
/// stated of its value.
#[verifier::external_body]
pub fn new_uuid() -> (u: uuid::Uuid) {
    uuid::Uuid::new_v4()
}

/// Calls `uuid::Uuid::new_v4` and renders it with `to_string`. The text is
/// random; the crate documents the hyphenated form, 36 characters long.
#[verifier::external_body]
pub fn new_id() -> (s: String)
    ensures
        s@.len() == 36,
{
    uuid::Uuid::new_v4().to_string()
}

/// Calls `chrono::Utc::now` and takes its seconds and sub-second
/// nanoseconds. The value depends on the clock, so nothing is stated of it;
/// the call panics only if the clock reads before 1970.
#[verifier::external_body]
pub fn now() -> (t: Timestamp) {
    let t = chrono::Utc::now();
    Timestamp { secs: t.timestamp(), nanos: t.timestamp_subsec_nanos() }
}

/// Calls `chrono::Utc::now` and renders it with `to_rfc3339`. The value
/// depends on the clock, so nothing is stated of it.
#[verifier::external_body]
pub fn now_rfc3339() -> (s: String) {
    chrono::Utc::now().to_rfc3339()
}

/// What `comrak::markdown_to_html` renders for a Markdown text under the
/// default options.
pub uninterp spec fn markdown_html(md: Seq<char>) -> Seq<char>;

/// Calls `comrak::markdown_to_html` with `comrak::Options::default()`. The
/// rendering is a function of the text alone, named `markdown_html`.
#[verifier::external_body]
pub fn markdown_to_html(md: &str) -> (html: String)
    ensures
        html@ == markdown_html(md@),
{
    comrak::markdown_to_html(md, &comrak::Options::default())
}

/// The file name `std::path::Path::file_name` finds in a path, as text.
pub uninterp spec fn path_file_name(path: Seq<char>) -> Option<Seq<char>>;

/// Calls `std::path::Path::file_name` on `path` and renders the name with
/// `to_string_lossy`. The result is a function of the path's text, named
/// `path_file_name`.
#[verifier::external_body]
pub fn path_file_name_text(path: &str) -> (name: Option<String>)
    ensures
        match name {
            Some(n) => path_file_name(path@) == Some(n@),
            None => path_file_name(path@) is None,
        },
{
    std::path::Path::new(path).file_name().map(|n| n.to_string_lossy().to_string())
}

/// The file stem `std::path::Path::file_stem` finds in a path, as text.
pub uninterp spec fn path_file_stem(path: Seq<char>) -> Option<Seq<char>>;

/// Calls `std::path::Path::file_stem` on `path` and renders the stem with
/// `to_string_lossy`. The result is a function of the path's text, named
/// `path_file_stem`.
#[verifier::external_body]
pub fn path_file_stem_text(path: &str) -> (stem: Option<String>)
    ensures
        match stem {
            Some(n) => path_file_stem(path@) == Some(n@),
            None => path_file_stem(path@) is None,
        },
{
    std::path::Path::new(path).file_stem().map(|n| n.to_string_lossy().to_string())
}

/// The text `str::to_lowercase` gives for a text.
pub uninterp spec fn lowercase(s: Seq<char>) -> Seq<char>;

/// Calls `str::to_lowercase`. The Unicode lowercase mapping is a function
/// of the text alone, named `lowercase`.
#[verifier::external_body]
pub fn to_lowercase(s: &str) -> (r: String)
    ensures
        r@ == lowercase(s@),
{
    s.to_lowercase()
}

/// The text `base64`'s standard engine (`general_purpose::STANDARD`, with
/// padding) encodes a byte string to.
pub uninterp spec fn base64_standard(bytes: Seq<u8>) -> Seq<char>;

/// Calls `base64::Engine::encode` on `general_purpose::STANDARD`. The text
/// is a function of the bytes, named `base64_standard`; with padding it is
/// four characters for each started group of three bytes (the crate's
/// `encoded_len`). The call panics when that length overflows `usize`.
#[verifier::external_body]
pub fn base64_encode(bytes: &[u8]) -> (s: String)
    requires
        4 * ((bytes@.len() + 2) / 3) <= usize::MAX,
    ensures
        s@ == base64_standard(bytes@),
        s@.len() == 4 * ((bytes@.len() + 2) / 3),
{
    base64::Engine::encode(&base64::engine::general_purpose::STANDARD, bytes)
}

/// What `image::load_from_memory` makes of a byte string: the width and
/// height of the decoded image, or the text of the decoding error.
pub uninterp spec fn decoded_dimensions(bytes: Seq<u8>) -> Result<(u32, u32), Seq<char>>;

/// Calls `image::load_from_memory` and takes the image's `width` and
/// `height`, or renders the error with `to_string`. Decoding depends on the
/// bytes alone, so the outcome is named `decoded_dimensions`.
#[verifier::external_body]
pub fn decode_dimensions(bytes: &[u8]) -> (r: Result<(u32, u32), String>)
    ensures
        match r {
            Ok(d) => decoded_dimensions(bytes@) == Ok::<(u32, u32), Seq<char>>(d),
            Err(e) => decoded_dimensions(bytes@) == Err::<(u32, u32), Seq<char>>(e@),
        },
{
    match image::load_from_memory(bytes) {
        Ok(img) => Ok((img.width(), img.height())),
        Err(e) => Err(e.to_string()),
    }
}

/// The text of `std::path::Path::join` applied to two paths.
pub uninterp spec fn joined_path(base: Seq<char>, part: Seq<char>) -> Seq<char>;

/// Calls `std::path::Path::join` and renders the path with
/// `to_string_lossy`. The result is a function of the two texts, named
/// `joined_path`.
#[verifier::external_body]
pub fn path_join(base: &str, part: &str) -> (r: String)
    ensures
        r@ == joined_path(base@, part@),
{
    std::path::Path::new(base).join(part).to_string_lossy().to_string()
}

/// Calls `dirs::home_dir` and renders the path with `to_string_lossy`.
/// The answer depends on the environment, so nothing is stated of it.
#[verifier::external_body]
pub fn home_dir() -> (r: Option<String>) {
    dirs::home_dir().map(|p| p.to_string_lossy().to_string())
}

/// What `uuid::Uuid::parse_str` makes of a text: the identifier, or `None`
/// where the text is not a UUID.
pub uninterp spec fn uuid_parse(s: Seq<char>) -> Option<uuid::Uuid>;

/// Calls `uuid::Uuid::parse_str`; the outcome is a function of the text,
/// named `uuid_parse`.
#[verifier::external_body]
pub fn parse_uuid(s: &str) -> (r: Option<uuid::Uuid>)
    ensures
        r == uuid_parse(s@),
{
    uuid::Uuid::parse_str(s).ok()
}

/// Compares two identifiers with `Uuid`'s derived `==`, which compares the
/// sixteen bytes a `Uuid` consists of: equal exactly when they are the same
/// identifier.
#[verifier::external_body]
pub fn uuid_eq(a: &uuid::Uuid, b: &uuid::Uuid) -> (r: bool)
    ensures
        r == (*a == *b),
{
    a == b
}

/// The instant an RFC 3339 text names, in UTC, as
/// `chrono::DateTime::parse_from_rfc3339` reads it: `None` where the text
/// does not parse.
pub uninterp spec fn rfc3339_instant(s: Seq<char>) -> Option<Timestamp>;

/// Calls `chrono::DateTime::parse_from_rfc3339`, converts the result to UTC
/// and takes its seconds and sub-second nanoseconds. The outcome is a
/// function of the text, named `rfc3339_instant`.
#[verifier::external_body]
pub fn parse_rfc3339(s: &str) -> (r: Option<Timestamp>)
    ensures
        r == rfc3339_instant(s@),
{
    match chrono::DateTime::parse_from_rfc3339(s) {
        Ok(t) => {
            let u = t.with_timezone(&chrono::Utc);
            Some(Timestamp { secs: u.timestamp(), nanos: u.timestamp_subsec_nanos() })
        },
        Err(_) => None,
    }
}

/// The SHA-256 digest of a byte string.
pub uninterp spec fn sha256_digest(data: Seq<u8>) -> Seq<u8>;

/// Calls `sha2::Digest::digest` for `sha2::Sha256`. The digest is a
/// function of the bytes, named `sha256_digest`, and is 32 bytes long.
#[verifier::external_body]
pub fn sha256(data: &[u8]) -> (d: Vec<u8>)
    ensures
        d@ == sha256_digest(data@),
        d@.len() == 32,
{
    <sha2::Sha256 as sha2::Digest>::digest(data).to_vec()
}

/// The HMAC-SHA256 of a message under a key.
pub uninterp spec fn hmac_sha256_tag(key: Seq<u8>, data: Seq<u8>) -> Seq<u8>;

/// Calls `hmac::Mac::new_from_slice` for `Hmac<Sha256>` (which takes keys of
/// any length), `update` with the message and `finalize`. The tag is a
/// function of the key and the message, named `hmac_sha256_tag`, and is 32
/// bytes long.
#[verifier::external_body]
pub fn hmac_sha256(key: &[u8], data: &[u8]) -> (tag: Vec<u8>)
    ensures
        tag@ == hmac_sha256_tag(key@, data@),
        tag@.len() == 32,
{
    match <hmac::Hmac<sha2::Sha256> as hmac::Mac>::new_from_slice(key) {
        Ok(mut mac) => {
            hmac::Mac::update(&mut mac, data);
            hmac::Mac::finalize(mac).into_bytes().to_vec()
        },
        Err(_) => Vec::new(),
    }
}

/// The lowercase hexadecimal digit of a value below 16.
pub open spec fn hex_digit(n: u8) -> char {
    if n < 10 {
        (('0' as u8) + n) as char
    } else {
        (('a' as u8) + (n - 10)) as char
    }
}

/// Bytes in lowercase hexadecimal, two digits each, high nibble first.
pub open spec fn hex_lower(bytes: Seq<u8>) -> Seq<char>
    decreases bytes.len(),
{
    if bytes.len() == 0 {
        Seq::empty()
    } else {
        hex_lower(bytes.drop_last()) + seq![hex_digit(bytes.last() / 16), hex_digit(bytes.last() % 16)]
    }
}

/// Calls `hex::encode`, which writes each byte as two lowercase hexadecimal
/// digits, high nibble first.
#[verifier::external_body]
pub fn hex_encode(bytes: &[u8]) -> (s: String)
    ensures
        s@ == hex_lower(bytes@),
{
    hex::encode(bytes)
}

/// The JSON string literal `serde_json` writes for a text.
pub uninterp spec fn json_quoted(s: Seq<char>) -> Seq<char>;

/// Calls `serde_json::to_string` on a text, which gives its JSON string
/// literal; the result is a function of the text, named `json_quoted`.
#[verifier::external_body]
pub fn json_quote(s: &str) -> (r: String)
    ensures
        r@ == json_quoted(s@),
{
    match serde_json::to_string(s) {
        Ok(t) => t,
        Err(_) => String::new(),
    }
}

/// Calls `chrono::Utc::now` and formats it as `%Y%m%dT%H%M%SZ`. The value
/// depends on the clock; of every outcome the format gives at least eight
/// ASCII characters (the date), as `%Y` has at least four digits.
#[verifier::external_body]
pub fn compact_utc_now() -> (s: String)
    ensures
        s@.len() >= 8,
        forall|i: int| 0 <= i < s@.len() ==> (s@[i] as u32) < 128,
{
    chrono::Utc::now().format("%Y%m%dT%H%M%SZ").to_string()
}

/// Whether `char::is_alphanumeric` holds of a character (Unicode
/// `Alphabetic` or a numeric general category).
pub uninterp spec fn alphanumeric(c: char) -> bool;

/// Calls `char::is_alphanumeric`; the answer is a function of the
/// character, named `alphanumeric`.
#[verifier::external_body]
pub fn is_alphanumeric(c: char) -> (b: bool)
    ensures
        b == alphanumeric(c),
{
    c.is_alphanumeric()
}

/// One entry of a parsed feed: its id, title, link addresses, summary and
/// publication time.
pub type FeedEntryParts = (String, Option<String>, Vec<String>, Option<String>, Option<Timestamp>);

/// A feed entry as plain values, without its id: title text, link
/// addresses, summary text, and publication time as seconds and nanoseconds.
pub type FeedEntryView = (Option<Seq<char>>, Seq<Seq<char>>, Option<Seq<char>>, Option<(i64, u32)>);

/// What `feed_rs::parser::parse` makes of a feed's bytes, ids aside: each
/// entry's title, links, summary and publication time, or the error text.
pub uninterp spec fn feed_parse(bytes: Seq<u8>) -> Result<Seq<FeedEntryView>, Seq<char>>;

/// An optional text as a plain value.
pub open spec fn opt_text_view(o: Option<String>) -> Option<Seq<char>> {
    match o {
        Some(t) => Some(t@),
        None => None,
    }
}

/// A time as seconds and nanoseconds.
pub open spec fn time_view(t: Option<Timestamp>) -> Option<(i64, u32)> {
    match t {
        Some(t) => Some((t.secs, t.nanos)),
        None => None,
    }
}

/// The parts of a parsed entry as plain values, its id left out.
pub open spec fn parts_view(p: FeedEntryParts) -> FeedEntryView {
    (opt_text_view(p.1), p.2@.map_values(|l: String| l@), opt_text_view(p.3), time_view(p.4))
}

/// Calls `feed_rs::parser::parse` and takes each entry's id, title text,
/// link addresses, summary text and publication time (in UTC), or renders
/// the error with `to_string`. Everything but the ids is a function of the
/// bytes, named `feed_parse`. The id of an entry that has none, and no link
/// or title to derive one from, is a random UUID, so nothing is stated of
/// the ids.
#[verifier::external_body]
pub fn parse_feed(bytes: &[u8]) -> (r: Result<Vec<FeedEntryParts>, String>)
    ensures
        match r {
            Ok(ps) => feed_parse(bytes@) == Ok::<Seq<FeedEntryView>, Seq<char>>(ps@.map_values(|p: FeedEntryParts| parts_view(p))),
            Err(e) => feed_parse(bytes@) == Err::<Seq<FeedEntryView>, Seq<char>>(e@),
        },
{
    match feed_rs::parser::parse(bytes) {
        Ok(feed) => Ok(feed.entries.into_iter().map(|e| {
            let published = e.published.map(|p| Timestamp { secs: p.timestamp(), nanos: p.timestamp_subsec_nanos() });
            let links = e.links.into_iter().map(|l| l.href).collect();
            (e.id, e.title.map(|t| t.content), links, e.summary.map(|t| t.content), published)
        }).collect()),
        Err(e) => Err(e.to_string()),
    }
}

/// What `readability::extractor::extract` makes of a page: its title and
/// its readable text, or the text of the error.
pub uninterp spec fn readable_page(html: Seq<char>, url: Seq<char>) -> Result<(Seq<char>, Seq<char>), Seq<char>>;

/// Parses `url` (`reqwest::Url::parse`, the `url` crate's parser) and calls
/// `readability::extractor::extract` on the page's bytes, taking the
/// product's title and text; an error, the URL's included, is rendered by
/// `readability::error::Error`'s `to_string`. The outcome is a function of
/// the page and the URL, named `readable_page`.
#[verifier::external_body]
pub fn extract_readable(html: &str, url: &str) -> (r: Result<(String, String), String>)
    ensures
        match r {
            Ok((title, text)) => readable_page(html@, url@) == Ok::<(Seq<char>, Seq<char>), Seq<char>>((title@, text@)),
            Err(e) => readable_page(html@, url@) == Err::<(Seq<char>, Seq<char>), Seq<char>>(e@),
        },
{
    match reqwest::Url::parse(url) {
        Ok(u) => match readability::extractor::extract(&mut html.as_bytes(), &u) {
            Ok(p) => Ok((p.title, p.text)),
            Err(e) => Err(e.to_string()),
        },
        Err(e) => Err(readability::error::Error::from(e).to_string()),
    }
}

} // verus!
