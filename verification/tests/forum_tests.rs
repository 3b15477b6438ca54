use forum_persona::flarum::CreateDiscussionRequest;
use forum_persona::flarum::DetailPayload;
use forum_persona::flarum::Discussion;
use forum_persona::flarum::ForumError;
use forum_persona::flarum::Forum;
use forum_persona::flarum::IncludedObject;
use forum_persona::flarum::ListingEntry;
use forum_persona::flarum::ListingPayload;
use forum_persona::flarum::WritePostRequest;

fn entry(
    id: Option<&str>,
    title: Option<&str>,
    last_posted_user: Option<&str>,
    is_locked: Option<bool>,
    is_sticky: Option<bool>,
    is_hidden: Option<bool>,
    can_reply: Option<bool>,
) -> ListingEntry {
    ListingEntry {
        id: id.map(|s| s.to_string()),
        title: title.map(|s| s.to_string()),
        last_posted_user: last_posted_user.map(|s| s.to_string()),
        is_locked,
        is_sticky,
        is_hidden,
        can_reply,
    }
}

fn forum() -> Forum {
    Forum::new("https://forum.example/api", "k3y")
}

#[test]
fn listing_keeps_discussion_for_other_persona() {
    let e = entry(Some("42"), Some("T"), Some("99"), Some(false), None, None, None);
    let payload = ListingPayload { data: Some(vec![e]) };
    let r = forum().list_recent_discussions(7, &payload).unwrap();
    assert_eq!(r.len(), 1);
    assert_eq!(r[0].id, 42);
    assert_eq!(r[0].title, "T");
}

#[test]
fn listing_drops_discussion_last_posted_by_caller() {
    let e = entry(Some("42"), Some("T"), Some("99"), Some(false), None, None, None);
    let payload = ListingPayload { data: Some(vec![e]) };
    let r = forum().list_recent_discussions(99, &payload).unwrap();
    assert_eq!(r.len(), 0);
}

#[test]
fn listing_drops_flagged_discussions() {
    let locked = entry(Some("1"), Some("a"), None, Some(true), None, None, None);
    let sticky = entry(Some("2"), Some("b"), None, None, Some(true), None, None);
    let hidden = entry(Some("3"), Some("c"), None, None, None, Some(true), None);
    let closed = entry(Some("4"), Some("d"), None, None, None, None, Some(false));
    let open = entry(Some("5"), Some("e"), None, None, None, None, Some(true));
    let payload = ListingPayload { data: Some(vec![locked, sticky, hidden, closed, open]) };
    let r = forum().list_recent_discussions(7, &payload).unwrap();
    assert_eq!(r.len(), 1);
    assert_eq!(r[0].id, 5);
    assert_eq!(r[0].title, "e");
}

#[test]
fn listing_drops_entries_missing_id_or_title() {
    let no_id = entry(None, Some("a"), None, None, None, None, None);
    let bad_id = entry(Some("x9"), Some("b"), None, None, None, None, None);
    let no_title = entry(Some("8"), None, None, None, None, None, None);
    let payload = ListingPayload { data: Some(vec![no_id, bad_id, no_title]) };
    let r = forum().list_recent_discussions(7, &payload).unwrap();
    assert_eq!(r.len(), 0);
}

#[test]
fn listing_without_array_is_malformed() {
    let payload = ListingPayload { data: None };
    let r = forum().list_recent_discussions(7, &payload);
    assert!(matches!(r, Err(ForumError::MalformedResponse { .. })));
}

#[test]
fn random_discussion_is_none_iff_no_candidate() {
    let payload = ListingPayload { data: Some(vec![]) };
    let r = forum().get_random_discussion(7, &payload).unwrap();
    assert!(r.is_none());

    let e1 = entry(Some("42"), Some("T"), Some("99"), None, None, None, None);
    let e2 = entry(Some("43"), Some("U"), Some("98"), None, None, None, None);
    let payload = ListingPayload { data: Some(vec![e1, e2]) };
    let r = forum().get_random_discussion(7, &payload).unwrap();
    let d: Discussion = r.expect("a candidate exists, so one must be drawn");
    assert!(d.id == 42 || d.id == 43);

    let bad = ListingPayload { data: None };
    assert!(matches!(
        forum().get_random_discussion(7, &bad),
        Err(ForumError::MalformedResponse { .. })
    ));
}

fn post_object(number: Option<i64>, content_html: Option<&str>) -> IncludedObject {
    IncludedObject {
        otype: "posts".to_string(),
        number,
        content_html: content_html.map(|s| s.to_string()),
    }
}

#[test]
fn fetch_orders_posts_and_strips_html() {
    let payload = DetailPayload {
        title: Some("T".to_string()),
        included: Some(vec![
            post_object(Some(2), Some("<p>b</p>")),
            post_object(Some(1), Some("<p>a</p>")),
        ]),
    };
    let d = forum().fetch_discussion(payload).unwrap();
    assert_eq!(d.title, "T");
    assert_eq!(d.recent_posts.len(), 2);
    assert_eq!(d.recent_posts[0].content.trim(), "a");
    assert_eq!(d.recent_posts[1].content.trim(), "b");
    assert!(!d.recent_posts[0].content.contains('<'));
    assert!(!d.recent_posts[1].content.contains('<'));
}

#[test]
fn fetch_ignores_other_included_objects() {
    let user = IncludedObject {
        otype: "users".to_string(),
        number: Some(1),
        content_html: Some("<p>u</p>".to_string()),
    };
    let payload = DetailPayload {
        title: None,
        included: Some(vec![user, post_object(Some(3), Some("<p>x</p>"))]),
    };
    let d = forum().fetch_discussion(payload).unwrap();
    assert_eq!(d.title, "No title");
    assert_eq!(d.recent_posts.len(), 1);
    assert_eq!(d.recent_posts[0].content.trim(), "x");
}

#[test]
fn fetch_without_included_is_malformed() {
    let payload = DetailPayload { title: Some("T".to_string()), included: None };
    let r = forum().fetch_discussion(payload);
    assert!(matches!(r, Err(ForumError::MalformedResponse { .. })));
}

#[test]
fn auth_headers_encode_key_and_persona() {
    let f = forum();
    assert_eq!(f.persona_auth_header(7), "Token k3y; userId=7");
    assert_eq!(f.read_only_auth_header(), "Token k3y");
}

#[test]
fn urls_are_derived_from_the_base() {
    let f = forum();
    assert_eq!(f.discussions_url(), "https://forum.example/api/discussions");
    assert_eq!(f.discussion_url(42), "https://forum.example/api/discussions/42");
    assert_eq!(f.posts_url(), "https://forum.example/api/posts");
}

#[test]
fn create_discussion_request_is_complete() {
    let r: CreateDiscussionRequest = forum().create_new_discussion(7, "Hello", "World");
    assert_eq!(r.url, "https://forum.example/api/discussions");
    assert_eq!(r.authorization, "Token k3y; userId=7");
    assert_eq!(r.title, "Hello");
    assert_eq!(r.content, "World");
    assert_eq!(r.tag_id, "1");
}

#[test]
fn write_post_request_is_complete() {
    let r: WritePostRequest = forum().write_post(7, 42, "Hi");
    assert_eq!(r.url, "https://forum.example/api/posts");
    assert_eq!(r.authorization, "Token k3y; userId=7");
    assert_eq!(r.content, "Hi");
    assert_eq!(r.discussion_id, "42");
}
