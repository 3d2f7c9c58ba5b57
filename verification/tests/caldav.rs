use argvus_calendar::caldav::{
    collections_from_tokens, credential_lookup, delete_reply_error, dav_reply_error, local_name,
    objects_from_tokens, parse_collections, parse_remote_objects, put_precondition,
    put_reply_error, status_text, CalDavClient, XmlToken,
};
use argvus_calendar::error::ArgvusError;

fn caldav_message(e: Option<ArgvusError>) -> String {
    match e {
        Some(ArgvusError::CalDav(m)) => m,
        other => panic!("unexpected {other:?}"),
    }
}

#[test]
fn element_names_lose_their_prefix() {
    assert_eq!(local_name(b"d:href"), "href");
    assert_eq!(local_name(b"a:b:getctag"), "getctag");
    assert_eq!(local_name(b"response"), "response");
    assert_eq!(local_name(&[0xff, 0x3a, 0x61]), "");
}

const PROPFIND: &str = r#"<?xml version="1.0" encoding="utf-8"?>
<d:multistatus xmlns:d="DAV:" xmlns:cs="http://calendarserver.org/ns/">
  <d:response>
    <d:href>/cal/work/</d:href>
    <d:propstat><d:prop><d:displayname>Work</d:displayname><cs:getctag>42</cs:getctag></d:prop></d:propstat>
  </d:response>
  <d:response>
    <d:href>/cal/home/</d:href>
    <d:propstat><d:prop><d:displayname/></d:prop></d:propstat>
  </d:response>
</d:multistatus>"#;

#[test]
fn collections_are_read_from_a_multistatus_reply() {
    let collections = parse_collections(PROPFIND).unwrap();
    assert_eq!(collections.len(), 2);
    assert_eq!(collections[0].href, "/cal/work/");
    assert_eq!(collections[0].display_name, "Work");
    assert_eq!(collections[0].ctag.as_deref(), Some("42"));
    assert_eq!(collections[1].href, "/cal/home/");
    assert_eq!(collections[1].display_name, "/cal/home/");
    assert_eq!(collections[1].ctag, None);
}

#[test]
fn malformed_replies_are_errors() {
    match parse_collections("<d:multistatus><d:response></d:wrong></d:multistatus>") {
        Err(ArgvusError::CalDav(m)) => assert!(m.starts_with("invalid DAV XML: ")),
        other => panic!("unexpected {other:?}"),
    }
}

const REPORT: &str = "<d:multistatus xmlns:d=\"DAV:\" xmlns:c=\"urn:ietf:params:xml:ns:caldav\"><d:response><d:href>/cal/work/1.ics</d:href><d:propstat><d:prop><d:getetag>\"e1\"</d:getetag><c:calendar-data>BEGIN:VCALENDAR\nEND:VCALENDAR\n</c:calendar-data></d:prop></d:propstat></d:response><d:response><d:href>/cal/work/2.ics</d:href></d:response></d:multistatus>";

#[test]
fn calendar_objects_need_an_href_and_data() {
    let objects = parse_remote_objects(REPORT).unwrap();
    assert_eq!(objects.len(), 1);
    assert_eq!(objects[0].href, "/cal/work/1.ics");
    assert_eq!(objects[0].etag.as_deref(), Some("\"e1\""));
    assert_eq!(objects[0].ics, "BEGIN:VCALENDAR\nEND:VCALENDAR\n");
}

fn start(n: &str) -> XmlToken {
    XmlToken::Start(n.as_bytes().to_vec())
}
fn end(n: &str) -> XmlToken {
    XmlToken::End(n.as_bytes().to_vec())
}
fn text(t: &str) -> XmlToken {
    XmlToken::Text(t.to_string())
}

#[test]
fn token_readers_keep_values_across_responses_without_href() {
    // A response without an href keeps its display name for the next one.
    let tokens = vec![
        start("d:response"),
        start("d:displayname"),
        text("Kept"),
        end("d:response"),
        start("d:response"),
        start("d:href"),
        text("/x/"),
        end("d:response"),
        XmlToken::Eof,
        start("d:href"),
    ];
    let collections = collections_from_tokens(&tokens).unwrap();
    assert_eq!(collections.len(), 1);
    assert_eq!(collections[0].display_name, "Kept");
    let objects = objects_from_tokens(
        &vec![
            start("href"),
            text("/a"),
            start("calendar-data"),
            text("X"),
            end("response"),
            XmlToken::Invalid("bad".to_string()),
        ],
        77,
    );
    match objects {
        Err(ArgvusError::CalDav(m)) => assert_eq!(m, "invalid DAV XML: bad"),
        other => panic!("unexpected {other:?}"),
    }
    let objects = objects_from_tokens(
        &vec![start("href"), text("/a"), start("calendar-data"), text("X"), end("response")],
        77,
    )
    .unwrap();
    assert_eq!(objects[0].updated_at, 77);
}

#[test]
fn server_answers() {
    assert_eq!(status_text(404), "404 Not Found");
    assert_eq!(status_text(599), "599 <unknown status code>");
    assert!(dav_reply_error("collection discovery", 207).is_none());
    assert!(dav_reply_error("collection discovery", 200).is_none());
    assert_eq!(
        caldav_message(dav_reply_error("calendar query", 403)),
        "calendar query failed with 403 Forbidden"
    );
    assert_eq!(
        caldav_message(put_reply_error(412)),
        "remote event changed; preserving local conflict copy"
    );
    assert_eq!(caldav_message(put_reply_error(500)), "PUT failed with 500 Internal Server Error");
    assert!(put_reply_error(201).is_none());
    assert!(delete_reply_error(404).is_none());
    assert_eq!(caldav_message(delete_reply_error(409)), "DELETE failed with 409 Conflict");
}

#[test]
fn writes_carry_a_precondition() {
    assert_eq!(
        put_precondition(Some("\"e1\"")),
        ("If-Match".to_string(), "\"e1\"".to_string())
    );
    assert_eq!(put_precondition(None), ("If-None-Match".to_string(), "*".to_string()));
    assert_eq!(credential_lookup("acct", "ana"), "caldav:acct:ana");
}

#[test]
fn clients_drop_trailing_slashes() {
    let client = CalDavClient::new(
        "https://dav.example/cal//".to_string(),
        "ana".to_string(),
        "secret".to_string(),
    )
    .unwrap();
    assert_eq!(client.base_url, "https://dav.example/cal");
    assert_eq!(client.username, "ana");
}

#[test]
fn empty_replies_hold_nothing() {
    assert!(parse_collections("").unwrap().is_empty());
    assert!(parse_remote_objects("<d:multistatus/>").unwrap().is_empty());
}
