use ntfy_api::HttpMethod;
use ntfy_api::NtfyAction;
use ntfy_api::NtfyActionType;
use ntfy_api::NtfyApi;
use ntfy_api::NtfyAuthorization;
use ntfy_api::NtfyMsg;
use ntfy_api::NtfyPriority;
use ntfy_api::NtfySettings;
use ntfy_api::RequestBody;
use ntfy_api::actions_header;
use ntfy_api::join_tags;

fn client(host: &str) -> NtfyApi {
    NtfyApi::new(NtfySettings::new(host.to_string()))
}

#[test]
fn bare_message_has_empty_body_and_no_headers() {
    let api = client("https://example.test/");
    let msg = NtfyMsg::new("alerts");
    let r = api.post_request(&msg);
    assert_eq!(r.method, HttpMethod::Post);
    assert_eq!(r.url, "https://example.test/alerts");
    assert!(r.headers.is_empty());
    match r.body {
        RequestBody::Text(t) => assert_eq!(t, ""),
        _ => panic!("expected a text body"),
    }
    assert!(r.authorization.is_none());
}

#[test]
fn priority_header_digits_are_the_ordinals() {
    let cases = [
        (NtfyPriority::Minimum, 1u8, "1"),
        (NtfyPriority::Low, 2, "2"),
        (NtfyPriority::Default, 3, "3"),
        (NtfyPriority::High, 4, "4"),
        (NtfyPriority::Maximum, 5, "5"),
    ];
    for (p, level, digit) in cases {
        assert_eq!(p.level(), level);
        assert_eq!(p.header_value(), digit);
        assert_eq!(NtfyPriority::from_level(level), p);
    }
    assert_eq!(NtfyPriority::from_level(0), NtfyPriority::Default);
    assert_eq!(NtfyPriority::from_level(9), NtfyPriority::Default);
}

#[test]
fn priority_header_is_emitted() {
    let api = client("h/");
    let msg = NtfyMsg::builder("t").priority(NtfyPriority::High).build();
    let r = api.post_request(&msg);
    assert_eq!(r.headers.len(), 1);
    assert_eq!(r.headers[0].0, "X-Priority");
    assert_eq!(r.headers[0].1, "4");
}

#[test]
fn tags_join_in_original_order() {
    let tags = vec!["warning".to_string(), "skull".to_string(), "a b".to_string()];
    let joined = join_tags(&tags);
    assert_eq!(joined, "warning,skull,a b");
    let back: Vec<&str> = joined.split(',').collect();
    assert_eq!(back, vec!["warning", "skull", "a b"]);
}

#[test]
fn single_tag_joins_to_itself() {
    let tags = vec!["solo".to_string()];
    assert_eq!(join_tags(&tags), "solo");
}

#[test]
fn tags_header_is_emitted() {
    let api = client("h/");
    let msg = NtfyMsg::builder("t").add_tag("warning").add_tag("skull").build();
    let r = api.post_request(&msg);
    assert_eq!(r.headers.len(), 1);
    assert_eq!(r.headers[0].0, "X-Tags");
    assert_eq!(r.headers[0].1, "warning,skull");
}

#[test]
fn actions_header_has_one_terminated_fragment_per_action() {
    let mut first = NtfyAction::new("Open".to_string(), "https://example.test/a".to_string());
    first.action = NtfyActionType::View;
    let second = NtfyAction {
        action: NtfyActionType::Http,
        label: "Ack".to_string(),
        url: "https://example.test/b".to_string(),
        clear: Some(true),
    };
    let actions = vec![first, second];
    let header = actions_header(&actions);
    let expected = "action=view,label=Open,url=https://example.test/a;\
action=http,label=Ack,url=https://example.test/b,clear=true;";
    assert_eq!(header, expected);
    let semicolons = header.chars().filter(|&c| c == ';').count();
    assert_eq!(semicolons, actions.len());
    assert!(header.ends_with(';'));
}

#[test]
fn action_clear_false_is_written_out() {
    let action = NtfyAction {
        action: NtfyActionType::Broadcast,
        label: "B".to_string(),
        url: "u".to_string(),
        clear: Some(false),
    };
    let header = actions_header(&vec![action]);
    assert_eq!(header, "action=broadcast,label=B,url=u,clear=false;");
}

#[test]
fn action_type_tokens_are_fixed() {
    assert_eq!(NtfyActionType::View.value(), "view");
    assert_eq!(NtfyActionType::Broadcast.value(), "broadcast");
    assert_eq!(NtfyActionType::Http.value(), "http");
}

#[test]
fn all_headers_in_field_order() {
    let api = client("https://example.test/");
    let msg = NtfyMsg::builder("t")
        .message("body text")
        .title("Heading")
        .add_tag("warning")
        .priority(NtfyPriority::Maximum)
        .delay("30m")
        .add_action(NtfyAction::new("Open".to_string(), "https://e/x".to_string()))
        .attach("https://e/file.jpg")
        .email("me@example.test")
        .build();
    let r = api.post_request(&msg);
    let names: Vec<&str> = r.headers.iter().map(|h| h.0.as_str()).collect();
    assert_eq!(
        names,
        vec!["X-Title", "X-Priority", "X-Tags", "X-Delay", "X-Actions", "X-Attach", "X-Email"],
    );
    assert_eq!(r.headers[0].1, "Heading");
    assert_eq!(r.headers[1].1, "5");
    assert_eq!(r.headers[2].1, "warning");
    assert_eq!(r.headers[3].1, "30m");
    assert_eq!(r.headers[4].1, "action=view,label=Open,url=https://e/x;");
    assert_eq!(r.headers[5].1, "https://e/file.jpg");
    assert_eq!(r.headers[6].1, "me@example.test");
    match r.body {
        RequestBody::Text(t) => assert_eq!(t, "body text"),
        _ => panic!("expected a text body"),
    }
}

#[test]
fn trigger_is_a_bare_get_to_publish() {
    let api = client("https://example.test/");
    let r = api.trigger_request("alerts");
    assert_eq!(r.method, HttpMethod::Get);
    assert_eq!(r.url, "https://example.test/alerts/publish");
    assert!(r.headers.is_empty());
    assert!(matches!(r.body, RequestBody::Empty));
}

#[test]
fn attachment_is_a_put_with_filename_header() {
    let api = client("https://example.test/");
    let bytes = vec![0u8, 159, 146, 150, 255];
    let r = api.attachment_request("alerts", "photo.jpg", bytes.clone());
    assert_eq!(r.method, HttpMethod::Put);
    assert_eq!(r.url, "https://example.test/alerts");
    assert_eq!(r.headers.len(), 1);
    assert_eq!(r.headers[0].0, "Filename");
    assert_eq!(r.headers[0].1, "photo.jpg");
    match r.body {
        RequestBody::Bytes(b) => assert_eq!(b, bytes),
        _ => panic!("expected a byte body"),
    }
}

#[test]
fn post_to_topic_is_raw_text_with_no_headers() {
    let api = client("https://example.test/");
    let r = api.post_to_topic_request("alerts", "hello");
    assert_eq!(r.method, HttpMethod::Post);
    assert_eq!(r.url, "https://example.test/alerts");
    assert!(r.headers.is_empty());
    match r.body {
        RequestBody::Text(t) => assert_eq!(t, "hello"),
        _ => panic!("expected a text body"),
    }
}

#[test]
fn credentials_ride_on_every_request() {
    let settings = NtfySettings::new("h/".to_string())
        .auth(NtfyAuthorization::new("user".to_string(), "secret".to_string()));
    let api = NtfyApi::new(settings);
    let msg = NtfyMsg::new("t");
    for r in [
        api.post_request(&msg),
        api.post_json_request(&msg),
        api.post_to_topic_request("t", "x"),
        api.trigger_request("t"),
        api.attachment_request("t", "f", vec![1u8]),
    ] {
        let auth = r.authorization.expect("credentials should be attached");
        assert_eq!(auth.username, "user");
        assert_eq!(auth.password, "secret");
    }
}

#[test]
fn default_host_is_the_public_one() {
    let api = NtfyApi::default();
    assert_eq!(api.settings.host, "https://ntfy.sh/");
    assert!(api.settings.authorization.is_none());
    let settings = NtfySettings::default();
    assert_eq!(settings.host, "https://ntfy.sh/");
}

#[test]
fn builder_sets_every_field() {
    let msg = NtfyMsg::builder("alerts")
        .message("Hello world")
        .title("New message!")
        .tags(vec!["a".to_string()])
        .priority(NtfyPriority::Low)
        .attach("https://e/f")
        .filename("f.bin")
        .click("https://e/c")
        .actions(vec![NtfyAction::new("L".to_string(), "u".to_string())])
        .delay("tomorrow")
        .email("x@y.test")
        .build();
    assert_eq!(msg.topic, "alerts");
    assert_eq!(msg.message.as_deref(), Some("Hello world"));
    assert_eq!(msg.title.as_deref(), Some("New message!"));
    assert_eq!(msg.tags.as_deref(), Some(&["a".to_string()][..]));
    assert_eq!(msg.priority, Some(NtfyPriority::Low));
    assert_eq!(msg.attach.as_deref(), Some("https://e/f"));
    assert_eq!(msg.filename.as_deref(), Some("f.bin"));
    assert_eq!(msg.click.as_deref(), Some("https://e/c"));
    assert_eq!(msg.actions.as_ref().map(|a| a.len()), Some(1));
    assert_eq!(msg.delay.as_deref(), Some("tomorrow"));
    assert_eq!(msg.email.as_deref(), Some("x@y.test"));
}

#[test]
fn builder_topic_can_be_replaced() {
    let msg = NtfyMsg::builder("first").topic("second").build();
    assert_eq!(msg.topic, "second");
    assert!(msg.message.is_none());
}
