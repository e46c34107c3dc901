use vstd::prelude::*;
use vstd::string::StringExecFns;

use crate::encode::actions_header;
use crate::encode::join_tags;
use crate::encode::opt_header;
use crate::encode::post_body;
use crate::encode::post_headers;
use crate::json::json_msg;
use crate::json::json_msg_value;
use crate::message::NtfyMsg;
use crate::settings::NtfyAuthorization;
use crate::settings::NtfySettings;

verus! {

/// HTTP method of an outbound request.
#[derive(Copy, Clone, Debug, PartialEq, Eq, Structural)]
pub enum HttpMethod {
    Get,
    Post,
    Put,
}

/// Body of an outbound request: nothing, plain text, or raw bytes.
#[derive(Clone, Debug)]
pub enum RequestBody {
    Empty,
    Text(String),
    Bytes(Vec<u8>),
}

/// One fully determined outbound HTTP request: everything the transport
/// needs to dispatch it.  Credentials ride along unencoded; the transport
/// turns them into standard HTTP basic authentication.
#[derive(Clone, Debug)]
pub struct HttpRequest {
    pub method: HttpMethod,
    pub url: String,
    pub headers: Vec<(String, String)>,
    pub body: RequestBody,
    pub authorization: Option<NtfyAuthorization>,
}

fn clone_auth(o: &Option<NtfyAuthorization>) -> (r: Option<NtfyAuthorization>)
    ensures
        r == *o,
{
    match o {
        Some(a) => Some(
            NtfyAuthorization { username: a.username.clone(), password: a.password.clone() },
        ),
        None => None,
    }
}

/// The views of a header list.
pub open spec fn headers_view(h: Seq<(String, String)>) -> Seq<(Seq<char>, Seq<char>)> {
    h.map_values(|p: (String, String)| (p.0@, p.1@))
}

/// The notification client: holds the target settings and translates a
/// message (or raw parameters) into one outbound HTTP request.
#[derive(Clone, Debug)]
pub struct NtfyApi {
    pub settings: NtfySettings,
}

impl NtfyApi {
    pub fn new(settings: NtfySettings) -> (api: NtfyApi)
        ensures
            api.settings == settings,
    {
        NtfyApi { settings }
    }

    /// The header-encoded publish request: `POST` to host + topic, the plain
    /// message text (or nothing) as the body, and one `X-...` header per
    /// present optional field.
    #[verifier::rlimit(100)]
    pub fn post_request(&self, msg: &NtfyMsg) -> (r: HttpRequest)
        ensures
            r.method == HttpMethod::Post,
            r.url@ == self.settings.host@ + msg@.topic,
            headers_view(r.headers@) == post_headers(msg@),
            r.body matches RequestBody::Text(t) && t@ == post_body(msg@),
            r.authorization == self.settings.authorization,
    {
        let url = self.settings.host.clone().concat(msg.topic.as_str());
        let ghost m = msg@;
        let mut headers: Vec<(String, String)> = Vec::new();
        let ghost e1 = opt_header("X-Title"@, m.title);
        let ghost e2 = opt_header(
            "X-Priority"@,
            match m.priority {
                Some(p) => Some(crate::message::priority_digit(p)),
                None => None,
            },
        );
        let ghost e3 = opt_header(
            "X-Tags"@,
            match m.tags {
                Some(t) => Some(crate::encode::join_comma(t)),
                None => None,
            },
        );
        let ghost e4 = opt_header("X-Delay"@, m.delay);
        let ghost e5 = opt_header(
            "X-Actions"@,
            match m.actions {
                Some(a) => Some(crate::encode::actions_header_value(a)),
                None => None,
            },
        );
        let ghost e6 = opt_header("X-Attach"@, m.attach);
        match &msg.title {
            Some(title) => headers.push(("X-Title".to_owned(), title.clone())),
            None => (),
        }
        assert(headers_view(headers@) =~~= e1);
        match msg.priority {
            Some(priority) => headers.push(
                ("X-Priority".to_owned(), priority.header_value().to_owned()),
            ),
            None => (),
        }
        assert(headers_view(headers@) =~~= e1 + e2);
        match &msg.tags {
            Some(tags) => headers.push(("X-Tags".to_owned(), join_tags(tags))),
            None => (),
        }
        assert(headers_view(headers@) =~~= e1 + e2 + e3);
        match &msg.delay {
            Some(delay) => headers.push(("X-Delay".to_owned(), delay.clone())),
            None => (),
        }
        assert(headers_view(headers@) =~~= e1 + e2 + e3 + e4);
        match &msg.actions {
            Some(actions) => headers.push(("X-Actions".to_owned(), actions_header(actions))),
            None => (),
        }
        assert(headers_view(headers@) =~~= e1 + e2 + e3 + e4 + e5);
        match &msg.attach {
            Some(attach) => headers.push(("X-Attach".to_owned(), attach.clone())),
            None => (),
        }
        assert(headers_view(headers@) =~~= e1 + e2 + e3 + e4 + e5 + e6);
        match &msg.email {
            Some(email) => headers.push(("X-Email".to_owned(), email.clone())),
            None => (),
        }
        assert(headers_view(headers@) =~~= post_headers(m));
        let body = match &msg.message {
            Some(text) => text.clone(),
            None => String::new(),
        };
        HttpRequest {
            method: HttpMethod::Post,
            url,
            headers,
            body: RequestBody::Text(body),
            authorization: clone_auth(&self.settings.authorization),
        }
    }

    /// The JSON-encoded publish request: `POST` to the configured host
    /// itself (the topic travels inside the JSON document), the whole
    /// message as the body, and a JSON content-type header.
    pub fn post_json_request(&self, msg: &NtfyMsg) -> (r: HttpRequest)
        ensures
            r.method == HttpMethod::Post,
            r.url@ == self.settings.host@,
            headers_view(r.headers@) == seq![("Content-Type"@, "application/json"@)],
            r.body matches RequestBody::Text(t) && t@ == json_msg_value(msg@),
            r.authorization == self.settings.authorization,
    {
        let mut headers: Vec<(String, String)> = Vec::new();
        headers.push(("Content-Type".to_owned(), "application/json".to_owned()));
        assert(headers_view(headers@) =~~= seq![("Content-Type"@, "application/json"@)]);
        HttpRequest {
            method: HttpMethod::Post,
            url: self.settings.host.clone(),
            headers,
            body: RequestBody::Text(json_msg(msg)),
            authorization: clone_auth(&self.settings.authorization),
        }
    }

    /// The raw-text publish request: `POST` the text to host + topic with no
    /// extra headers.
    pub fn post_to_topic_request(&self, topic: &str, message: &str) -> (r: HttpRequest)
        ensures
            r.method == HttpMethod::Post,
            r.url@ == self.settings.host@ + topic@,
            headers_view(r.headers@) == Seq::<(Seq<char>, Seq<char>)>::empty(),
            r.body matches RequestBody::Text(t) && t@ == message@,
            r.authorization == self.settings.authorization,
    {
        let headers: Vec<(String, String)> = Vec::new();
        assert(headers_view(headers@) =~~= Seq::<(Seq<char>, Seq<char>)>::empty());
        HttpRequest {
            method: HttpMethod::Post,
            url: self.settings.host.clone().concat(topic),
            headers,
            body: RequestBody::Text(message.to_owned()),
            authorization: clone_auth(&self.settings.authorization),
        }
    }

    /// The webhook-trigger request: `GET` to host + topic + `/publish`, with
    /// no body and no headers.
    pub fn trigger_request(&self, topic: &str) -> (r: HttpRequest)
        ensures
            r.method == HttpMethod::Get,
            r.url@ == self.settings.host@ + topic@ + "/publish"@,
            headers_view(r.headers@) == Seq::<(Seq<char>, Seq<char>)>::empty(),
            r.body is Empty,
            r.authorization == self.settings.authorization,
    {
        let headers: Vec<(String, String)> = Vec::new();
        assert(headers_view(headers@) =~~= Seq::<(Seq<char>, Seq<char>)>::empty());
        HttpRequest {
            method: HttpMethod::Get,
            url: self.settings.host.clone().concat(topic).concat("/publish"),
            headers,
            body: RequestBody::Empty,
            authorization: clone_auth(&self.settings.authorization),
        }
    }

    /// The binary-attachment request: `PUT` the bytes unmodified to host +
    /// topic, naming the upload in a `Filename` header.
    pub fn attachment_request(&self, topic: &str, filename: &str, data: Vec<u8>) -> (r:
        HttpRequest)
        ensures
            r.method == HttpMethod::Put,
            r.url@ == self.settings.host@ + topic@,
            headers_view(r.headers@) == seq![("Filename"@, filename@)],
            r.body matches RequestBody::Bytes(b) && b@ == data@,
            r.authorization == self.settings.authorization,
    {
        let mut headers: Vec<(String, String)> = Vec::new();
        headers.push(("Filename".to_owned(), filename.to_owned()));
        assert(headers_view(headers@) =~~= seq![("Filename"@, filename@)]);
        HttpRequest {
            method: HttpMethod::Put,
            url: self.settings.host.clone().concat(topic),
            headers,
            body: RequestBody::Bytes(data),
            authorization: clone_auth(&self.settings.authorization),
        }
    }
}

impl Default for NtfyApi {
    /// A client for the public default host, with no credentials.
    fn default() -> (api: NtfyApi)
        ensures
            api.settings.host@ == "https://ntfy.sh/"@,
            api.settings.authorization is None,
    {
        NtfyApi { settings: NtfySettings::default() }
    }
}

} // verus!
