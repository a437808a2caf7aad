//! The client that is bound to one configuration and builds the URLs of
//! its requests.

use crate::config::{CanvasConfig, ConfigView};
use crate::error::{plain_error, CanvasError, ErrorKind};
use crate::text::{
    contains_char, join, trim_end, trim_end_matches, trim_start, trim_start_matches,
};
use crate::transport::{
    build_transport, default_authorization, header_value, is_header_char, is_header_text,
    is_visible_text, share, static_header_value, TransportLimits,
};
use std::sync::Arc;
use vstd::prelude::*;
use vstd::string::*;

verus! {

/// Canvas API HTTP client
pub struct CanvasClient {
    client: reqwest::Client,
    config: Arc<CanvasConfig>,
}

/// What a `CanvasClient` holds: its configuration, and the transport that
/// was built for it.
pub struct ClientView {
    pub config: ConfigView,
    pub transport: reqwest::Client,
}

impl View for CanvasClient {
    type V = ClientView;

    closed spec fn view(&self) -> ClientView {
        ClientView { config: self.config@, transport: self.client }
    }
}

/// The value of the `Authorization` header that goes with a token.
pub open spec fn authorization(api_token: Seq<char>) -> Seq<char> {
    "Bearer "@ + api_token
}

/// The path of an endpoint as it stands in a URL: `path` without the
/// slashes at its start, and, where that leaves one segment and slashes
/// behind it, without those slashes too. A slash at the end of a path of
/// more than one segment stays.
pub open spec fn endpoint_path(path: Seq<char>) -> Seq<char> {
    let rest = trim_start(path, '/');
    let segment = trim_end(rest, '/');
    if segment.contains('/') {
        rest
    } else {
        segment
    }
}

/// The URL of the endpoint `path` under `base`: `base` without the slashes
/// at its end, one `/`, and the path of the endpoint.
pub open spec fn joined_url(base: Seq<char>, path: Seq<char>) -> Seq<char> {
    trim_end(base, '/') + seq!['/'] + endpoint_path(path)
}

/// The value of the `Authorization` header is fit for a header exactly
/// where the token is.
pub proof fn lemma_authorization_fits(api_token: Seq<char>)
    ensures
        is_header_text(authorization(api_token)) <==> is_header_text(api_token),
{
    reveal_strlit("Bearer ");
    let whole = authorization(api_token);
    let lead = "Bearer "@;
    if is_header_text(api_token) {
        assert forall|i: int| 0 <= i < whole.len() implies is_header_char(#[trigger] whole[i]) by {
            if i >= lead.len() {
                assert(whole[i] == api_token[i - lead.len()]);
            }
        }
    }
    if is_header_text(whole) {
        assert forall|i: int| 0 <= i < api_token.len() implies is_header_char(
            #[trigger] api_token[i],
        ) by {
            assert(api_token[i] == whole[i + lead.len()]);
        }
    }
}

/// A text trimmed at its end does not end in the character that was
/// trimmed, and is the start of the text.
pub proof fn lemma_trim_end_stops(s: Seq<char>, c: char)
    ensures
        trim_end(s, c).is_prefix_of(s),
        trim_end(s, c).len() > 0 ==> trim_end(s, c).last() != c,
    decreases s.len(),
{
    if s.len() > 0 && s.last() == c {
        lemma_trim_end_stops(s.drop_last(), c);
        let t = trim_end(s, c);
        assert(t =~= s.subrange(0, t.len() as int));
    } else {
        assert(s =~= s.subrange(0, s.len() as int));
    }
}

/// A text trimmed at its start does not start with the character that was
/// trimmed, and is the end of the text.
pub proof fn lemma_trim_start_stops(s: Seq<char>, c: char)
    ensures
        trim_start(s, c).is_suffix_of(s),
        trim_start(s, c).len() > 0 ==> trim_start(s, c).first() != c,
    decreases s.len(),
{
    if s.len() > 0 && s.first() == c {
        lemma_trim_start_stops(s.drop_first(), c);
        let t = trim_start(s, c);
        assert(t =~= s.subrange(s.len() - t.len(), s.len() as int));
    } else {
        assert(s =~= s.subrange(0, s.len() as int));
    }
}

/// A slash more at the end of the base, or at the start of the path, builds
/// the same URL.
pub proof fn lemma_join_ignores_slashes(base: Seq<char>, path: Seq<char>)
    ensures
        joined_url(base.push('/'), path) == joined_url(base, path),
        joined_url(base, seq!['/'] + path) == joined_url(base, path),
        joined_url(base.push('/'), seq!['/'] + path) == joined_url(base, path),
{
    assert(base.push('/').drop_last() =~= base);
    assert((seq!['/'] + path).drop_first() =~= path);
}

/// A text that does not end in `c` stays as it is when it is trimmed at
/// its end, and one that does not start with `c` when it is trimmed at its
/// start.
pub proof fn lemma_trim_keeps(s: Seq<char>, c: char)
    ensures
        (s.len() == 0 || s.last() != c) ==> trim_end(s, c) == s,
        (s.len() == 0 || s.first() != c) ==> trim_start(s, c) == s,
{
}

/// A path of one segment names the same endpoint with and without slashes
/// around it: for a base and a segment that holds no `/`, the URL is the
/// base without the slashes at its end, one `/`, and the segment.
pub proof fn lemma_join_one_segment(base: Seq<char>, segment: Seq<char>)
    requires
        !segment.contains('/'),
    ensures
        joined_url(base, segment) == trim_end(base, '/') + seq!['/'] + segment,
        joined_url(base, segment.push('/')) == joined_url(base, segment),
        joined_url(base, seq!['/'] + segment) == joined_url(base, segment),
        joined_url(base.push('/'), segment.push('/')) == joined_url(base, segment),
{
    lemma_join_ignores_slashes(base, segment);
    lemma_join_ignores_slashes(base, segment.push('/'));
    if segment.len() > 0 {
        assert(segment.contains(segment.first()));
        assert(segment.contains(segment.last()));
    }
    lemma_trim_keeps(segment, '/');
    assert(endpoint_path(segment) == segment);
    let slashed = segment.push('/');
    assert(slashed.drop_last() =~= segment);
    if segment.len() > 0 {
        assert(slashed.first() == segment.first());
        assert(trim_start(slashed, '/') == slashed);
        assert(trim_end(slashed, '/') == segment);
    } else {
        assert(slashed.drop_first() =~= segment);
        assert(trim_start(slashed, '/') == segment);
    }
    assert(endpoint_path(slashed) == segment);
}

/// The path of an endpoint does not start with `/`.
pub proof fn lemma_endpoint_path_starts_behind_slashes(path: Seq<char>)
    ensures
        endpoint_path(path).len() > 0 ==> endpoint_path(path).first() != '/',
{
    let rest = trim_start(path, '/');
    let segment = trim_end(rest, '/');
    lemma_trim_start_stops(path, '/');
    lemma_trim_end_stops(rest, '/');
    if segment.len() > 0 {
        assert(segment.first() == rest.subrange(0, segment.len() as int)[0]);
    }
}

/// The base and the path of a built URL are parted by exactly one `/`:
/// what stands before it is the base without the slashes at its end, what
/// stands behind it is the path of the endpoint, and no `/` stands next to
/// it.
pub proof fn lemma_join_has_one_separator(base: Seq<char>, path: Seq<char>)
    ensures
        ({
            let url = joined_url(base, path);
            let at = trim_end(base, '/').len() as int;
            &&& url.len() == at + 1 + endpoint_path(path).len()
            &&& url.take(at) == trim_end(base, '/')
            &&& url[at] == '/'
            &&& url.skip(at + 1) == endpoint_path(path)
            &&& at > 0 ==> url[at - 1] != '/'
            &&& at + 1 < url.len() ==> url[at + 1] != '/'
        }),
{
    lemma_trim_end_stops(base, '/');
    lemma_endpoint_path_starts_behind_slashes(path);
    let url = joined_url(base, path);
    let at = trim_end(base, '/').len() as int;
    assert(url.take(at) =~= trim_end(base, '/'));
    assert(url.skip(at + 1) =~= endpoint_path(path));
}

/// The name and version that this client gives for itself in each request.
pub fn user_agent() -> (agent: &'static str)
    ensures
        agent@ == "rust-canvas-mcp/0.1.0"@,
        is_visible_text(agent@),
{
    proof {
        reveal_strlit("rust-canvas-mcp/0.1.0");
    }
    "rust-canvas-mcp/0.1.0"
}

/// The value of the `Authorization` header that goes with a token:
/// `Bearer`, a space, and the token.
pub fn authorization_value(api_token: &str) -> (text: String)
    ensures
        text@ == authorization(api_token@),
{
    join("Bearer ", api_token)
}

/// The path of an endpoint as it stands in a URL.
pub fn endpoint(path: &str) -> (r: &str)
    ensures
        r@ == endpoint_path(path@),
{
    let rest = trim_start_matches(path, '/');
    let segment = trim_end_matches(rest, '/');
    if contains_char(segment, '/') {
        rest
    } else {
        segment
    }
}

impl Clone for CanvasClient {
    /// One more handle to the same client.
    fn clone(&self) -> (other: Self)
        ensures
            other@ == self@,
    {
        CanvasClient { client: self.client.clone(), config: share(&self.config) }
    }
}

impl CanvasClient {
    /// Whether the transport attaches the `Authorization` header of the
    /// configuration's token to each request, as it does in every client
    /// that `new` made.
    pub open spec fn wf(&self) -> bool {
        default_authorization(self@.transport) == Some(authorization(self@.config.api_token))
    }

    /// Create a new Canvas client.
    ///
    /// A token that cannot stand in a header is refused. For every other
    /// token the outcome is that of building the transport: the client bound
    /// to `config`, whose transport sends `Bearer` and the token as the
    /// `Authorization` header of each request, or the failure that reports
    /// why none could be built.
    pub fn new(config: Arc<CanvasConfig>) -> (result: Result<Self, CanvasError>)
        ensures
            if is_header_text(config@.api_token) {
                match result {
                    Ok(client) => client@.config == config@ && client.wf(),
                    Err(e) => e@.kind == ErrorKind::Config && e@.status is None
                        && "Failed to create HTTP client: "@.is_prefix_of(e@.message),
                }
            } else {
                result matches Err(e) && e@ == plain_error(
                    ErrorKind::Config,
                    "Invalid API token: failed to parse header value"@,
                )
            },
    {
        proof {
            lemma_authorization_fits(config@.api_token);
        }
        let auth_value = authorization_value(config.api_token.as_str());
        let authorization = match header_value(auth_value.as_str()) {
            Ok(value) => value,
            Err(why) => {
                proof {
                    reveal_strlit("Invalid API token: ");
                    reveal_strlit("failed to parse header value");
                    reveal_strlit("Invalid API token: failed to parse header value");
                }
                let message = join("Invalid API token: ", why.as_str());
                assert(message@ =~= "Invalid API token: failed to parse header value"@);
                return Err(CanvasError::config(message));
            },
        };
        let agent = static_header_value(user_agent());
        let built = build_transport(authorization, agent, TransportLimits::standard());
        let result = CanvasClient::from_transport(config, built);
        assert(result matches Ok(client) ==> client.wf());
        proof {
            if result is Err {
                let lead = "Failed to create HTTP client: "@;
                let message = result->Err_0@.message;
                assert(lead =~= message.subrange(0, lead.len() as int));
            }
        }
        result
    }

    /// The client that is bound to `config`, given the outcome of building
    /// its transport.
    pub(crate) fn from_transport(
        config: Arc<CanvasConfig>,
        built: Result<reqwest::Client, String>,
    ) -> (result: Result<Self, CanvasError>)
        ensures
            match built {
                Ok(transport) => result matches Ok(client) && client@ == (ClientView {
                    config: config@,
                    transport,
                }),
                Err(why) => result matches Err(e) && e@ == plain_error(
                    ErrorKind::Config,
                    "Failed to create HTTP client: "@ + why@,
                ),
            },
    {
        match built {
            Ok(client) => Ok(CanvasClient { client, config }),
            Err(why) => Err(
                CanvasError::config(join("Failed to create HTTP client: ", why.as_str())),
            ),
        }
    }

    /// Get the base API URL
    pub fn base_url(&self) -> (url: &str)
        ensures
            url@ == self@.config.api_url,
    {
        self.config.api_url.as_str()
    }

    /// Build a URL for a Canvas API endpoint
    pub fn build_url(&self, path: &str) -> (url: String)
        ensures
            url@ == joined_url(self@.config.api_url, path@),
    {
        let base = trim_end_matches(self.config.api_url.as_str(), '/');
        let path = endpoint(path);
        let mut url = join(base, "/");
        url.append(path);
        proof {
            reveal_strlit("/");
            assert("/"@ =~= seq!['/']);
        }
        url
    }

    /// The configuration that this client is bound to.
    pub fn config(&self) -> (config: &Arc<CanvasConfig>)
        ensures
            config@ == self@.config,
    {
        &self.config
    }

    /// The transport that sends the requests of this client.
    pub fn transport(&self) -> (transport: &reqwest::Client)
        ensures
            *transport == self@.transport,
    {
        &self.client
    }
}

} // verus!
