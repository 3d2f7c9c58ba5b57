//! CalDAV: the account and collection records, reading the server's
//! multi-status replies, and the rules for its answers.
use vstd::prelude::*;

use crate::error::ArgvusError;
use crate::ical::{strip_trailing, strip_trailing_exec};
use crate::text::{chars_of, concat, int_to_chars, nat_to_chars, slice_vec, str_eq, string_of};

verus! {

/// A CalDAV account; its password lives in the Secret Service under
/// `secret_lookup`.
#[derive(Clone, Debug)]
pub struct CalDavAccount {
    pub id: Option<i64>,
    pub name: String,
    pub server_url: String,
    pub username: String,
    pub secret_lookup: String,
    pub sync_enabled: bool,
}

/// A calendar collection on a CalDAV server.
#[derive(Clone, Debug)]
pub struct CalendarCollection {
    pub href: String,
    pub display_name: String,
    pub ctag: Option<String>,
}

/// One calendar object on a CalDAV server; `updated_at` is when it was read,
/// as a UNIX time.
#[derive(Clone, Debug)]
pub struct RemoteObject {
    pub href: String,
    pub etag: Option<String>,
    pub ics: String,
    pub updated_at: i64,
}

/// What a synchronisation does when both sides changed an event.
#[derive(Clone, Copy, Debug)]
pub enum ConflictPolicy {
    PreserveBoth,
}

/// The outcome of a synchronisation; `finished_at` is a UNIX time.
#[derive(Clone, Copy, Debug)]
pub struct SyncReport {
    pub pulled: usize,
    pub pushed: usize,
    pub conflicts: usize,
    pub finished_at: i64,
}

// ---------------------------------------------------------------------------
// Element names
// ---------------------------------------------------------------------------

/// The part of a name after its last colon, or the whole name.
pub open spec fn local_part(name: Seq<char>) -> Seq<char> {
    if exists|i: int| 0 <= i < name.len() && name[i] == ':' {
        let i = choose|i: int|
            0 <= i < name.len() && name[i] == ':' && forall|k: int| i < k < name.len() ==> name[k]
                != ':';
        name.subrange(i + 1, name.len() as int)
    } else {
        name
    }
}

/// The text of a name's bytes: the name when they are UTF-8, else empty.
pub open spec fn name_text(name: Seq<u8>) -> Seq<char> {
    if vstd::utf8::valid_utf8(name) {
        vstd::utf8::decode_utf8(name)
    } else {
        Seq::empty()
    }
}

/// The text of UTF-8 bytes.
///
/// Trusted: `std::str::from_utf8`, which reads exactly the valid UTF-8
/// byte strings, each as the text whose encoding it is.
#[verifier::external_body]
fn utf8_text(bytes: &[u8]) -> (r: Option<String>)
    ensures
        r matches Some(s) ==> vstd::utf8::encode_utf8(s@) == bytes@,
        r is None ==> !vstd::utf8::valid_utf8(bytes@),
{
    std::str::from_utf8(bytes).ok().map(|s| s.to_string())
}

/// The local part of an XML element name: what follows its namespace
/// prefix, such as `href` for `d:href`.
pub fn local_name(name: &[u8]) -> (r: String)
    ensures
        r@ == local_part(name_text(name@)),
{
    let text = match utf8_text(name) {
        Some(s) => {
            proof {
                vstd::utf8::encode_utf8_decode_utf8(s@);
                vstd::utf8::encode_utf8_valid_utf8(s@);
            }
            s
        },
        None => String::new(),
    };
    assert(text@ == name_text(name@));
    let cs = chars_of(text.as_str());
    let mut i = cs.len();
    while i > 0
        invariant
            i <= cs.len(),
            cs@ == text@,
            text@ == name_text(name@),
            forall|k: int| i <= k < cs@.len() ==> cs@[k] != ':',
        decreases i,
    {
        if cs[i - 1] == ':' {
            let r = slice_vec(cs.as_slice(), i, cs.len());
            proof {
                let w = (i - 1) as int;
                assert(0 <= w < cs@.len() && cs@[w] == ':' && forall|k: int| w < k < cs@.len()
                    ==> cs@[k] != ':');
                let j = choose|j: int|
                    0 <= j < cs@.len() && cs@[j] == ':' && forall|k: int| j < k < cs@.len()
                        ==> cs@[k] != ':';
                assert(j == i - 1) by {
                    if j < i - 1 {
                        assert(cs@[i - 1] == ':');
                    }
                }
                assert(r@ =~= local_part(cs@));
            }
            return string_of(r.as_slice());
        }
        i = i - 1;
    }
    assert(!exists|k: int| 0 <= k < cs@.len() && cs@[k] == ':');
    text
}

// ---------------------------------------------------------------------------
// Multi-status replies
// ---------------------------------------------------------------------------

/// One event of an XML reader, as the multi-status readers use it.
#[derive(Clone, Debug)]
pub enum XmlToken {
    /// An opening tag, with its element name's bytes.
    Start(Vec<u8>),
    /// A closing tag, with its element name's bytes.
    End(Vec<u8>),
    /// Text between tags.
    Text(String),
    /// The end of the document.
    Eof,
    /// Anything else: empty elements, comments, declarations, CDATA.
    Other,
    /// A malformed document, with the reader's message.
    Invalid(String),
}

/// The state of a reader of collections: the values seen in the current
/// `response`, the element whose text comes next, and the collections
/// found so far.
pub struct CollectionScan {
    pub href: Option<Seq<char>>,
    pub display_name: Option<Seq<char>>,
    pub ctag: Option<Seq<char>>,
    pub current: Seq<char>,
    pub found: Seq<(Seq<char>, Seq<char>, Option<Seq<char>>)>,
}

/// A reader of collections that has seen nothing.
pub open spec fn collection_start() -> CollectionScan {
    CollectionScan {
        href: None,
        display_name: None,
        ctag: None,
        current: Seq::empty(),
        found: Seq::empty(),
    }
}

/// A reader of collections after one more token: an opening tag names the
/// element of the text that follows; the texts of `href`, `displayname`
/// and `getctag` are kept; the end of a `response` with an `href` records a
/// collection (named by its `href` when it has no display name) and
/// forgets its values.
pub open spec fn collection_step(s: CollectionScan, t: XmlToken) -> CollectionScan {
    match t {
        XmlToken::Start(n) => CollectionScan { current: local_part(name_text(n@)), ..s },
        XmlToken::Text(x) => if s.current == "href"@ {
            CollectionScan { href: Some(x@), ..s }
        } else if s.current == "displayname"@ {
            CollectionScan { display_name: Some(x@), ..s }
        } else if s.current == "getctag"@ {
            CollectionScan { ctag: Some(x@), ..s }
        } else {
            s
        },
        XmlToken::End(n) => if local_part(name_text(n@)) == "response"@ {
            match s.href {
                Some(h) => CollectionScan {
                    href: None,
                    display_name: None,
                    ctag: None,
                    found: s.found.push(
                        (
                            h,
                            match s.display_name {
                                Some(d) => d,
                                None => h,
                            },
                            s.ctag,
                        ),
                    ),
                    ..s
                },
                None => s,
            }
        } else {
            s
        },
        _ => s,
    }
}

/// A reader of collections after a list of tokens.
pub open spec fn collection_scan(ts: Seq<XmlToken>) -> CollectionScan
    decreases ts.len(),
{
    if ts.len() == 0 {
        collection_start()
    } else {
        collection_step(collection_scan(ts.drop_last()), ts.last())
    }
}

/// The position of the first token that ends the reading: the end of the
/// document or a malformed one.
pub open spec fn stops_at(ts: Seq<XmlToken>, i: int) -> bool {
    0 <= i < ts.len() && (ts[i] is Eof || ts[i] is Invalid) && forall|k: int|
        0 <= k < i ==> !(#[trigger] ts[k] is Eof) && !(ts[k] is Invalid)
}

/// Whether no token of `ts` ends the reading.
pub open spec fn runs_through(ts: Seq<XmlToken>) -> bool {
    forall|k: int| 0 <= k < ts.len() ==> !(#[trigger] ts[k] is Eof) && !(ts[k] is Invalid)
}

proof fn lemma_stop_unique(ts: Seq<XmlToken>, i: int, j: int)
    requires
        stops_at(ts, i),
        stops_at(ts, j),
    ensures
        i == j,
{
    if i < j {
        assert(!(ts[i] is Eof) && !(ts[i] is Invalid));
    } else if j < i {
        assert(!(ts[j] is Eof) && !(ts[j] is Invalid));
    }
}

/// The message of a malformed reply.
pub open spec fn invalid_xml_message(m: Seq<char>) -> Seq<char> {
    "invalid DAV XML: "@ + m
}

spec fn collection_values(c: CalendarCollection) -> (Seq<char>, Seq<char>, Option<Seq<char>>) {
    (c.href@, c.display_name@, match c.ctag {
        Some(t) => Some(t@),
        None => None,
    })
}

/// The views of a list of collections.
pub open spec fn collection_views(v: Seq<CalendarCollection>) -> Seq<
    (Seq<char>, Seq<char>, Option<Seq<char>>),
> {
    v.map_values(
        |c: CalendarCollection|
            (c.href@, c.display_name@, match c.ctag {
                Some(t) => Some(t@),
                None => None,
            }),
    )
}

fn invalid_xml(m: &String) -> (r: ArgvusError)
    ensures
        r matches ArgvusError::CalDav(t) && t@ == invalid_xml_message(m@),
{
    let head = chars_of("invalid DAV XML: ");
    let mv = chars_of(m.as_str());
    let all = concat(head.as_slice(), mv.as_slice());
    ArgvusError::CalDav(string_of(all.as_slice()))
}

/// The calendar collections of a multi-status reply, read from its tokens
/// up to the end of the document; a malformed document is an error.
pub fn collections_from_tokens(tokens: &Vec<XmlToken>) -> (r: Result<
    Vec<CalendarCollection>,
    ArgvusError,
>)
    ensures
        forall|i: int|
            stops_at(tokens@, i) ==> match tokens@[i] {
                XmlToken::Invalid(m) => (r matches Err(e) && e matches ArgvusError::CalDav(t) && t@
                    == invalid_xml_message(m@)),
                _ => (r matches Ok(v) && collection_views(v@) == collection_scan(
                    tokens@.take(i),
                ).found),
            },
        runs_through(tokens@) ==> (r matches Ok(v) && collection_views(v@) == collection_scan(
            tokens@,
        ).found),
{
    let mut href: Option<String> = None;
    let mut display_name: Option<String> = None;
    let mut ctag: Option<String> = None;
    let mut current = String::new();
    let mut found: Vec<CalendarCollection> = Vec::new();
    let mut i: usize = 0;
    while i < tokens.len()
        invariant
            i <= tokens.len(),
            runs_through(tokens@.take(i as int)),
            ({
                let s = collection_scan(tokens@.take(i as int));
                &&& s.href == (match href {
                    Some(h) => Some(h@),
                    None => None::<Seq<char>>,
                })
                &&& s.display_name == (match display_name {
                    Some(h) => Some(h@),
                    None => None::<Seq<char>>,
                })
                &&& s.ctag == (match ctag {
                    Some(h) => Some(h@),
                    None => None::<Seq<char>>,
                })
                &&& s.current == current@
                &&& s.found == collection_views(found@)
            }),
        decreases tokens.len() - i,
    {
        let ghost prev = tokens@.take(i as int);
        assert(tokens@.take(i + 1).drop_last() =~= prev);
        assert forall|k: int| 0 <= k < i implies !(#[trigger] tokens@[k] is Eof) && !(
        tokens@[k] is Invalid) by {
            assert(prev[k] == tokens@[k]);
        }
        assert(tokens@.take(i + 1).last() == tokens@[i as int]);
        match &tokens[i] {
            XmlToken::Eof => {
                assert(stops_at(tokens@, i as int));
                proof {
                    assert forall|j: int| stops_at(tokens@, j) implies j == i by {
                        lemma_stop_unique(tokens@, i as int, j);
                    }
                }
                return Ok(found);
            },
            XmlToken::Invalid(m) => {
                assert(stops_at(tokens@, i as int));
                proof {
                    assert forall|j: int| stops_at(tokens@, j) implies j == i by {
                        lemma_stop_unique(tokens@, i as int, j);
                    }
                }
                return Err(invalid_xml(m));
            },
            XmlToken::Start(n) => {
                current = local_name(n.as_slice());
            },
            XmlToken::Text(x) => {
                proof {
                    reveal_strlit("href");
                    reveal_strlit("displayname");
                    reveal_strlit("getctag");
                }
                if str_eq(current.as_str(), "href") {
                    href = Some(x.clone());
                } else if str_eq(current.as_str(), "displayname") {
                    display_name = Some(x.clone());
                } else if str_eq(current.as_str(), "getctag") {
                    ctag = Some(x.clone());
                }
            },
            XmlToken::End(n) => {
                let name = local_name(n.as_slice());
                if str_eq(name.as_str(), "response") {
                    match href {
                        Some(h) => {
                            let display = match display_name {
                                Some(d) => d,
                                None => h.clone(),
                            };
                            let ghost before = found@;
                            found.push(CalendarCollection { href: h, display_name: display, ctag });
                            assert(collection_views(found@) =~= collection_views(before).push(
                                collection_values(found@[found@.len() - 1]),
                            ));
                            href = None;
                            display_name = None;
                            ctag = None;
                        },
                        None => {
                            href = None;
                        },
                    }
                }
            },
            XmlToken::Other => {},
        }
        assert(runs_through(tokens@.take(i + 1))) by {
            assert forall|k: int| 0 <= k < i + 1 implies !(#[trigger] tokens@.take(i + 1)[k] is Eof)
                && !(tokens@.take(i + 1)[k] is Invalid) by {
                if k < i {
                    assert(tokens@.take(i + 1)[k] == prev[k]);
                }
            }
        }
        i = i + 1;
    }
    assert(tokens@.take(tokens.len() as int) =~= tokens@);
    proof {
        assert forall|k: int| !stops_at(tokens@, k) by {
            if 0 <= k < tokens@.len() {
                assert(!(tokens@[k] is Eof) && !(tokens@[k] is Invalid));
            }
        }
    }
    Ok(found)
}

/// The state of a reader of calendar objects: the values seen in the
/// current `response`, the element whose text comes next, and the objects
/// found so far as their `href`, `etag` and calendar data.
pub struct ObjectScan {
    pub href: Option<Seq<char>>,
    pub etag: Option<Seq<char>>,
    pub ics: Option<Seq<char>>,
    pub current: Seq<char>,
    pub found: Seq<(Seq<char>, Option<Seq<char>>, Seq<char>)>,
}

/// A reader of calendar objects that has seen nothing.
pub open spec fn object_start() -> ObjectScan {
    ObjectScan { href: None, etag: None, ics: None, current: Seq::empty(), found: Seq::empty() }
}

/// A reader of calendar objects after one more token: the texts of `href`,
/// `getetag` and `calendar-data` are kept; the end of a `response` records
/// an object when it had both an `href` and calendar data, and always
/// forgets those two.
pub open spec fn object_step(s: ObjectScan, t: XmlToken) -> ObjectScan {
    match t {
        XmlToken::Start(n) => ObjectScan { current: local_part(name_text(n@)), ..s },
        XmlToken::Text(x) => if s.current == "href"@ {
            ObjectScan { href: Some(x@), ..s }
        } else if s.current == "getetag"@ {
            ObjectScan { etag: Some(x@), ..s }
        } else if s.current == "calendar-data"@ {
            ObjectScan { ics: Some(x@), ..s }
        } else {
            s
        },
        XmlToken::End(n) => if local_part(name_text(n@)) == "response"@ {
            match (s.href, s.ics) {
                (Some(h), Some(c)) => ObjectScan {
                    href: None,
                    ics: None,
                    etag: None,
                    found: s.found.push((h, s.etag, c)),
                    ..s
                },
                _ => ObjectScan { href: None, ics: None, ..s },
            }
        } else {
            s
        },
        _ => s,
    }
}

/// A reader of calendar objects after a list of tokens.
pub open spec fn object_scan(ts: Seq<XmlToken>) -> ObjectScan
    decreases ts.len(),
{
    if ts.len() == 0 {
        object_start()
    } else {
        object_step(object_scan(ts.drop_last()), ts.last())
    }
}

/// The views of a list of calendar objects, without their reading time.
pub open spec fn object_views(v: Seq<RemoteObject>) -> Seq<(Seq<char>, Option<Seq<char>>, Seq<char>)> {
    v.map_values(
        |o: RemoteObject|
            (o.href@, match o.etag {
                Some(t) => Some(t@),
                None => None,
            }, o.ics@),
    )
}

spec fn object_values(o: RemoteObject) -> (Seq<char>, Option<Seq<char>>, Seq<char>) {
    (o.href@, match o.etag {
        Some(t) => Some(t@),
        None => None,
    }, o.ics@)
}

/// The calendar objects of a multi-status reply, read from its tokens up
/// to the end of the document, each read at `now`; a malformed document is
/// an error.
pub fn objects_from_tokens(tokens: &Vec<XmlToken>, now: i64) -> (r: Result<
    Vec<RemoteObject>,
    ArgvusError,
>)
    ensures
        forall|i: int|
            stops_at(tokens@, i) ==> match tokens@[i] {
                XmlToken::Invalid(m) => (r matches Err(e) && e matches ArgvusError::CalDav(t) && t@
                    == invalid_xml_message(m@)),
                _ => (r matches Ok(v) && object_views(v@) == object_scan(tokens@.take(i)).found),
            },
        runs_through(tokens@) ==> (r matches Ok(v) && object_views(v@) == object_scan(
            tokens@,
        ).found),
        r matches Ok(v) ==> forall|k: int| 0 <= k < v@.len() ==> #[trigger] v@[k].updated_at == now,
{
    let mut href: Option<String> = None;
    let mut etag: Option<String> = None;
    let mut ics: Option<String> = None;
    let mut current = String::new();
    let mut found: Vec<RemoteObject> = Vec::new();
    let mut i: usize = 0;
    while i < tokens.len()
        invariant
            i <= tokens.len(),
            runs_through(tokens@.take(i as int)),
            forall|k: int| 0 <= k < found@.len() ==> #[trigger] found@[k].updated_at == now,
            ({
                let s = object_scan(tokens@.take(i as int));
                &&& s.href == (match href {
                    Some(h) => Some(h@),
                    None => None::<Seq<char>>,
                })
                &&& s.etag == (match etag {
                    Some(h) => Some(h@),
                    None => None::<Seq<char>>,
                })
                &&& s.ics == (match ics {
                    Some(h) => Some(h@),
                    None => None::<Seq<char>>,
                })
                &&& s.current == current@
                &&& s.found == object_views(found@)
            }),
        decreases tokens.len() - i,
    {
        let ghost prev = tokens@.take(i as int);
        assert(tokens@.take(i + 1).drop_last() =~= prev);
        assert(tokens@.take(i + 1).last() == tokens@[i as int]);
        assert forall|k: int| 0 <= k < i implies !(#[trigger] tokens@[k] is Eof) && !(
        tokens@[k] is Invalid) by {
            assert(prev[k] == tokens@[k]);
        }
        match &tokens[i] {
            XmlToken::Eof => {
                assert(stops_at(tokens@, i as int));
                proof {
                    assert forall|j: int| stops_at(tokens@, j) implies j == i by {
                        lemma_stop_unique(tokens@, i as int, j);
                    }
                }
                return Ok(found);
            },
            XmlToken::Invalid(m) => {
                assert(stops_at(tokens@, i as int));
                proof {
                    assert forall|j: int| stops_at(tokens@, j) implies j == i by {
                        lemma_stop_unique(tokens@, i as int, j);
                    }
                }
                return Err(invalid_xml(m));
            },
            XmlToken::Start(n) => {
                current = local_name(n.as_slice());
            },
            XmlToken::Text(x) => {
                if str_eq(current.as_str(), "href") {
                    href = Some(x.clone());
                } else if str_eq(current.as_str(), "getetag") {
                    etag = Some(x.clone());
                } else if str_eq(current.as_str(), "calendar-data") {
                    ics = Some(x.clone());
                }
            },
            XmlToken::End(n) => {
                let name = local_name(n.as_slice());
                if str_eq(name.as_str(), "response") {
                    let h = href;
                    let c = ics;
                    href = None;
                    ics = None;
                    match (h, c) {
                        (Some(h), Some(c)) => {
                            let ghost before = found@;
                            found.push(RemoteObject { href: h, etag, ics: c, updated_at: now });
                            assert(object_views(found@) =~= object_views(before).push(
                                object_values(found@[found@.len() - 1]),
                            ));
                            etag = None;
                        },
                        _ => {},
                    }
                }
            },
            XmlToken::Other => {},
        }
        assert(runs_through(tokens@.take(i + 1))) by {
            assert forall|k: int| 0 <= k < i + 1 implies !(#[trigger] tokens@.take(i + 1)[k] is Eof)
                && !(tokens@.take(i + 1)[k] is Invalid) by {
                if k < i {
                    assert(tokens@.take(i + 1)[k] == prev[k]);
                }
            }
        }
        i = i + 1;
    }
    assert(tokens@.take(tokens.len() as int) =~= tokens@);
    proof {
        assert forall|k: int| !stops_at(tokens@, k) by {
            if 0 <= k < tokens@.len() {
                assert(!(tokens@[k] is Eof) && !(tokens@[k] is Invalid));
            }
        }
    }
    Ok(found)
}

/// A reader of XML text.
#[verifier::external_type_specification]
#[verifier::external_body]
#[verifier::reject_recursive_types(R)]
pub struct ExXmlReader<R>(quick_xml::Reader<R>);

/// The tokens quick-xml reads from an XML text, trimming white space around
/// texts or not, up to and with the end of the text or the first error.
pub uninterp spec fn xml_tokens(text: Seq<char>, trim_text: bool) -> Seq<XmlToken>;

/// The tokens an XML reader has yet to give, up to and with the end of its
/// text or the first error.
pub uninterp spec fn xml_tokens_ahead(reader: quick_xml::Reader<&[u8]>) -> Seq<XmlToken>;

/// Whether a list of tokens ends with the end of the text or an error, and
/// only there.
pub open spec fn ends_once(ts: Seq<XmlToken>) -> bool {
    ts.len() > 0 && stops_at(ts, ts.len() - 1)
}

/// A reader of an XML text, trimming white space around text or not.
///
/// Trusted: `quick_xml::Reader::from_str` and `Config::trim_text`; the
/// tokens it gives are a function of the text and of the flag, and it comes
/// to the end of the text or to an error after finitely many tokens.
#[verifier::external_body]
fn xml_reader<'a>(xml: &'a str, trim_text: bool) -> (r: quick_xml::Reader<&'a [u8]>)
    ensures
        xml_tokens_ahead(r) == xml_tokens(xml@, trim_text),
        ends_once(xml_tokens_ahead(r)),
{
    let mut reader = quick_xml::Reader::from_str(xml);
    reader.config_mut().trim_text(trim_text);
    reader
}

/// The next event of an XML reader.
///
/// Trusted: `quick_xml::Reader::read_event`, with a tag as its name's bytes
/// and a text as its content with XML 1.0 line ends: the first of the
/// tokens the reader has yet to give, which it then has given.
#[verifier::external_body]
fn next_xml_token(reader: &mut quick_xml::Reader<&[u8]>) -> (r: XmlToken)
    requires
        xml_tokens_ahead(*old(reader)).len() > 0,
    ensures
        r == xml_tokens_ahead(*old(reader))[0],
        xml_tokens_ahead(*final(reader)) == xml_tokens_ahead(*old(reader)).drop_first(),
{
    match reader.read_event() {
        Ok(quick_xml::events::Event::Start(e)) => XmlToken::Start(e.name().as_ref().as_bytes().to_vec()),
        Ok(quick_xml::events::Event::End(e)) => XmlToken::End(e.name().as_ref().as_bytes().to_vec()),
        Ok(quick_xml::events::Event::Text(t)) => XmlToken::Text(t.xml10_content().into_owned()),
        Ok(quick_xml::events::Event::Eof) => XmlToken::Eof,
        Ok(_) => XmlToken::Other,
        Err(e) => XmlToken::Invalid(e.to_string()),
    }
}

/// The tokens of an XML text, up to and with its end or its first error
/// (`xml_tokens`).
fn read_tokens(xml: &str, trim_text: bool) -> (r: Vec<XmlToken>)
    ensures
        r@ == xml_tokens(xml@, trim_text),
        ends_once(r@),
{
    let mut reader = xml_reader(xml, trim_text);
    let ghost all = xml_tokens(xml@, trim_text);
    let mut tokens: Vec<XmlToken> = Vec::new();
    assert(tokens@ + xml_tokens_ahead(reader) =~= all);
    loop
        invariant
            all == xml_tokens(xml@, trim_text),
            ends_once(all),
            tokens@ + xml_tokens_ahead(reader) == all,
            xml_tokens_ahead(reader).len() > 0,
        decreases xml_tokens_ahead(reader).len(),
    {
        let ghost ahead = xml_tokens_ahead(reader);
        let ghost k = tokens@.len();
        assert(all[k as int] == ahead[0]);
        let t = next_xml_token(&mut reader);
        let stop = match t {
            XmlToken::Eof => true,
            XmlToken::Invalid(_) => true,
            _ => false,
        };
        tokens.push(t);
        assert(tokens@ + xml_tokens_ahead(reader) =~= all);
        if stop {
            assert(k == all.len() - 1) by {
                if k < all.len() - 1 {
                    assert(!(all[k as int] is Eof) && !(all[k as int] is Invalid));
                }
            }
            assert(xml_tokens_ahead(reader).len() == 0);
            assert(tokens@ =~= all);
            return tokens;
        }
        assert(k < all.len() - 1);
    }
}

/// The calendar collections of a PROPFIND multi-status reply: the error of
/// the reader when it stops at one, else `collection_scan` of the tokens
/// before the end (see `collections_from_tokens`), read from the text with
/// white space around texts trimmed.
pub fn parse_collections(xml: &str) -> (r: Result<Vec<CalendarCollection>, ArgvusError>)
    ensures
        match xml_tokens(xml@, true).last() {
            XmlToken::Invalid(m) => (r matches Err(e) && e matches ArgvusError::CalDav(t) && t@
                == invalid_xml_message(m@)),
            _ => (r matches Ok(v) && collection_views(v@) == collection_scan(
                xml_tokens(xml@, true).drop_last(),
            ).found),
        },
{
    let tokens = read_tokens(xml, true);
    let r = collections_from_tokens(&tokens);
    proof {
        let ts = tokens@;
        assert(stops_at(ts, ts.len() - 1));
        assert(ts.take(ts.len() - 1) =~= ts.drop_last());
    }
    r
}

/// The calendar objects of a REPORT multi-status reply: the error of the
/// reader when it stops at one, else `object_scan` of the tokens before the
/// end (see `objects_from_tokens`), read at the current time from the text
/// with its white space kept.
pub fn parse_remote_objects(xml: &str) -> (r: Result<Vec<RemoteObject>, ArgvusError>)
    ensures
        match xml_tokens(xml@, false).last() {
            XmlToken::Invalid(m) => (r matches Err(e) && e matches ArgvusError::CalDav(t) && t@
                == invalid_xml_message(m@)),
            _ => (r matches Ok(v) && object_views(v@) == object_scan(
                xml_tokens(xml@, false).drop_last(),
            ).found),
        },
{
    let tokens = read_tokens(xml, false);
    let now = crate::calendar::date::now_utc();
    let r = objects_from_tokens(&tokens, now);
    proof {
        let ts = tokens@;
        assert(stops_at(ts, ts.len() - 1));
        assert(ts.take(ts.len() - 1) =~= ts.drop_last());
    }
    r
}

// ---------------------------------------------------------------------------
// Server answers
// ---------------------------------------------------------------------------

/// The reason phrase `http` gives a status code, when it knows one.
pub uninterp spec fn http_reason(code: u16) -> Option<Seq<char>>;

/// The reason phrase of a status code.
///
/// Trusted: `reqwest::StatusCode::from_u16` and `canonical_reason`, which
/// accept every code from 100 to 999; the phrase depends on the code alone.
#[verifier::external_body]
fn canonical_reason(code: u16) -> (r: Option<String>)
    requires
        100 <= code <= 999,
    ensures
        r matches Some(s) ==> http_reason(code) == Some(s@),
        r is None ==> http_reason(code) is None,
{
    reqwest::StatusCode::from_u16(code).ok().and_then(|s| s.canonical_reason()).map(|s| s.to_string())
}

/// How a status code is shown: the code and its reason phrase.
pub open spec fn status_text_spec(code: u16) -> Seq<char> {
    crate::text::decimal(code as int) + " "@ + match http_reason(code) {
        Some(r) => r,
        None => "<unknown status code>"@,
    }
}

/// How a status code is shown (`StatusCode`'s `Display`), such as `404 Not
/// Found`.
pub fn status_text(code: u16) -> (r: String)
    requires
        100 <= code <= 999,
    ensures
        r@ == status_text_spec(code),
{
    let digits = int_to_chars(code as i64);
    let space = chars_of(" ");
    let head = concat(digits.as_slice(), space.as_slice());
    let reason = match canonical_reason(code) {
        Some(r) => chars_of(r.as_str()),
        None => chars_of("<unknown status code>"),
    };
    let all = concat(head.as_slice(), reason.as_slice());
    string_of(all.as_slice())
}

/// Whether a status code is a success (2xx).
pub open spec fn is_success(code: u16) -> bool {
    200 <= code < 300
}

fn failed_with(what: &str, code: u16) -> (r: String)
    requires
        100 <= code <= 999,
    ensures
        r@ == what@ + " failed with "@ + status_text_spec(code),
{
    let w = chars_of(what);
    let mid = chars_of(" failed with ");
    let st = status_text(code);
    let sv = chars_of(st.as_str());
    let a = concat(w.as_slice(), mid.as_slice());
    let b = concat(a.as_slice(), sv.as_slice());
    string_of(b.as_slice())
}

/// The error for the answer to a PROPFIND or REPORT request about `what`
/// (such as `collection discovery`): none for a success or 207
/// Multi-Status.
pub fn dav_reply_error(what: &str, code: u16) -> (r: Option<ArgvusError>)
    requires
        100 <= code <= 999,
    ensures
        r is None <==> (is_success(code) || code == 207),
        r matches Some(e) ==> e matches ArgvusError::CalDav(m) && m@ == what@ + " failed with "@
            + status_text_spec(code),
{
    if (200 <= code && code < 300) || code == 207 {
        None
    } else {
        Some(ArgvusError::CalDav(failed_with(what, code)))
    }
}

/// The message when the server refuses a write because the event changed
/// there.
pub open spec fn conflict_message() -> Seq<char> {
    "remote event changed; preserving local conflict copy"@
}

/// The error for the answer to a PUT of an event: a failed precondition
/// means the event changed on the server; any other failure names the
/// status.
pub fn put_reply_error(code: u16) -> (r: Option<ArgvusError>)
    requires
        100 <= code <= 999,
    ensures
        r is None <==> is_success(code),
        code == 412 ==> (r matches Some(e) && e matches ArgvusError::CalDav(m) && m@
            == conflict_message()),
        code != 412 ==> (r matches Some(e) ==> e matches ArgvusError::CalDav(m) && m@ == "PUT"@
            + " failed with "@ + status_text_spec(code)),
{
    if code == 412 {
        Some(ArgvusError::CalDav(crate::calendar::event::string_of_str(
            "remote event changed; preserving local conflict copy",
        )))
    } else if 200 <= code && code < 300 {
        None
    } else {
        Some(ArgvusError::CalDav(failed_with("PUT", code)))
    }
}

/// The error for the answer to a DELETE of an event: none for a success or
/// 404 Not Found.
pub fn delete_reply_error(code: u16) -> (r: Option<ArgvusError>)
    requires
        100 <= code <= 999,
    ensures
        r is None <==> (is_success(code) || code == 404),
        r matches Some(e) ==> e matches ArgvusError::CalDav(m) && m@ == "DELETE"@ + " failed with "@
            + status_text_spec(code),
{
    if (200 <= code && code < 300) || code == 404 {
        None
    } else {
        Some(ArgvusError::CalDav(failed_with("DELETE", code)))
    }
}

/// The precondition header of a PUT: `If-Match` with the known entity tag,
/// or `If-None-Match: *` for an event the server must not have yet.
pub fn put_precondition(etag: Option<&str>) -> (r: (String, String))
    ensures
        match etag {
            Some(t) => r.0@ == "If-Match"@ && r.1@ == t@,
            None => r.0@ == "If-None-Match"@ && r.1@ == "*"@,
        },
{
    match etag {
        Some(t) => (crate::calendar::event::string_of_str("If-Match"), crate::calendar::event::string_of_str(t)),
        None => (crate::calendar::event::string_of_str("If-None-Match"), crate::calendar::event::string_of_str("*")),
    }
}

/// The Secret Service lookup key of an account's password.
pub fn credential_lookup(account_key: &str, username: &str) -> (r: String)
    ensures
        r@ == "caldav:"@ + account_key@ + ":"@ + username@,
{
    let a = chars_of("caldav:");
    let k = chars_of(account_key);
    let c = chars_of(":");
    let u = chars_of(username);
    let ak = concat(a.as_slice(), k.as_slice());
    let akc = concat(ak.as_slice(), c.as_slice());
    let all = concat(akc.as_slice(), u.as_slice());
    string_of(all.as_slice())
}

/// An HTTP client.
#[verifier::external_type_specification]
#[verifier::external_body]
pub struct ExHttpClient(reqwest::Client);

/// An HTTP client that sends the given user agent.
///
/// Trusted: `reqwest::Client::builder`, `user_agent` and `build`; whether it
/// can be built depends on the machine's TLS setup, so nothing is stated of
/// the outcome.
#[verifier::external_body]
fn build_http_client(user_agent: &str) -> (r: Result<reqwest::Client, String>) {
    reqwest::Client::builder().user_agent(user_agent).build().map_err(|e| e.to_string())
}

/// A client of one CalDAV server; the requests themselves are made by the
/// shell around the library.
pub struct CalDavClient {
    pub base_url: String,
    pub username: String,
    pub password: String,
    pub http: reqwest::Client,
}

impl CalDavClient {
    /// A client of the server at `base_url` (without trailing slashes),
    /// identifying as `argvus-calendar/0.1.0`.
    pub fn new(base_url: String, username: String, password: String) -> (r: Result<
        CalDavClient,
        ArgvusError,
    >)
        ensures
            r matches Ok(c) ==> c.base_url@ == strip_trailing(base_url@, '/') && c.username
                == username && c.password == password,
            r matches Err(e) ==> e is Network,
    {
        match build_http_client("argvus-calendar/0.1.0") {
            Ok(http) => {
                let b = chars_of(base_url.as_str());
                let trimmed = strip_trailing_exec(b.as_slice(), '/');
                Ok(CalDavClient { base_url: string_of(trimmed.as_slice()), username, password, http })
            },
            Err(m) => Err(ArgvusError::Network(m)),
        }
    }
}

} // verus!
