use vstd::prelude::*;
use crate::error::{DispatchError, ErrorView};
use crate::models::{
    all_text, concat_text, opt_text, role_text, ContentItem, ContentView, Message, ModelProviderInfo,
    Prompt, Role,
};

verus! {

/// The wire dialects, chosen by provider identity.
#[derive(Debug, Clone, Copy, PartialEq, Eq, Structural)]
pub enum Dialect {
    /// The generic chat-completion dialect.
    Generic,
    /// The vendor-gated dialect, which always needs a bearer token.
    Copilot,
}

/// The provider name that selects the vendor-gated dialect.
pub open spec fn copilot_provider_name() -> Seq<char> {
    "GitHub Copilot"@
}

/// The dialect that a provider of this name speaks.
pub open spec fn dialect_for(name: Seq<char>) -> Dialect {
    if name == copilot_provider_name() {
        Dialect::Copilot
    } else {
        Dialect::Generic
    }
}

/// The dialect that `provider` speaks.
pub fn dialect_of(provider: &ModelProviderInfo) -> (r: Dialect)
    ensures
        r == dialect_for(provider.name@),
{
    if crate::json::same_text(&provider.name, "GitHub Copilot") {
        Dialect::Copilot
    } else {
        Dialect::Generic
    }
}

/// One entry of the request's `messages` array.
#[derive(Debug, Clone)]
pub struct WireMessage {
    pub role: String,
    pub content: String,
}

/// The fixed extra fields of the vendor-gated dialect.
#[derive(Debug, Clone, Copy, PartialEq, Eq, Structural)]
pub struct CopilotOptions {
    pub intent: bool,
    /// Sampling temperature, in tenths.
    pub temperature_tenths: u32,
    pub n: u32,
}

/// The JSON body of a chat-completion request.
#[derive(Debug, Clone)]
pub struct ChatRequestBody {
    pub model: String,
    pub messages: Vec<WireMessage>,
    pub stream: bool,
    /// Present exactly for the vendor-gated dialect.
    pub copilot: Option<CopilotOptions>,
}

/// Everything the transport needs to send one request.
#[derive(Debug, Clone)]
pub struct ChatRequest {
    pub url: String,
    /// Bearer credential for the `Authorization` header, if any.
    pub bearer: Option<String>,
    /// Further headers, in order.
    pub headers: Vec<(String, String)>,
    pub body: ChatRequestBody,
}

/// The model used by the vendor-gated dialect when none is given.
pub open spec fn default_copilot_model() -> Seq<char> {
    "gpt-4"@
}

/// The model name that goes on the wire.
pub open spec fn model_for(dialect: Dialect, model: Seq<char>) -> Seq<char> {
    if dialect == Dialect::Copilot && model.len() == 0 {
        default_copilot_model()
    } else {
        model
    }
}

/// The extra body fields of a dialect.
pub open spec fn options_for(dialect: Dialect) -> Option<CopilotOptions> {
    match dialect {
        Dialect::Copilot => Some(CopilotOptions { intent: true, temperature_tenths: 1, n: 1 }),
        Dialect::Generic => None,
    }
}

/// The headers of a dialect, besides authorization.
pub open spec fn headers_for(dialect: Dialect) -> Seq<(Seq<char>, Seq<char>)> {
    match dialect {
        Dialect::Generic => seq![("Accept"@, "text/event-stream"@)],
        Dialect::Copilot => seq![
            ("Editor-Version"@, "Codex/0.1.0"@),
            ("Content-Type"@, "application/json"@),
            ("Copilot-Integration-Id"@, "vscode-chat"@),
            ("Copilot-Vision-Request"@, "true"@),
            ("Accept"@, "text/event-stream"@),
        ],
    }
}

/// Model of a header list.
pub open spec fn headers_view(hs: Seq<(String, String)>) -> Seq<(Seq<char>, Seq<char>)> {
    hs.map_values(|h: (String, String)| (h.0@, h.1@))
}

/// Model of a `messages` array: role and content of each entry.
pub open spec fn wire_view(ms: Seq<WireMessage>) -> Seq<(Seq<char>, Seq<char>)> {
    ms.map_values(|w: WireMessage| (w.role@, w.content@))
}

/// The `messages` array of a prompt: the instructions as a system entry,
/// then one entry per message with its role and concatenated text.
pub open spec fn wire_messages(p: Prompt) -> Seq<(Seq<char>, Seq<char>)> {
    seq![("system"@, p.full_instructions@)] + p.input@.map_values(
        |m: Message| (role_text(m.role), all_text(m@.content)),
    )
}

/// `s` without the `/` characters at its end.
pub open spec fn without_trailing_slashes(s: Seq<char>) -> Seq<char>
    decreases s.len(),
{
    if s.len() > 0 && s.last() == '/' {
        without_trailing_slashes(s.drop_last())
    } else {
        s
    }
}

/// The endpoint of a provider.
pub open spec fn endpoint_for(base_url: Seq<char>) -> Seq<char> {
    without_trailing_slashes(base_url) + "/chat/completions"@
}

/// The detail of the error for a vendor-gated request without a token.
pub open spec fn missing_bearer_detail() -> Seq<char> {
    "GitHub Copilot requires a bearer token"@
}

/// The chat-completion endpoint under `base_url`.
pub fn endpoint_url(base_url: &str) -> (r: String)
    ensures
        r@ == endpoint_for(base_url@),
{
    let mut end: usize = base_url.unicode_len();
    assert(base_url@.subrange(0, end as int) =~= base_url@);
    while end > 0 && base_url.get_char(end - 1) == '/'
        invariant
            end <= base_url@.len(),
            without_trailing_slashes(base_url@) == without_trailing_slashes(
                base_url@.subrange(0, end as int),
            ),
        decreases end,
    {
        assert(base_url@.subrange(0, end as int).drop_last() =~= base_url@.subrange(
            0,
            end - 1,
        ));
        end = end - 1;
    }
    let trimmed = base_url.substring_char(0, end);
    String::from_str(trimmed).concat("/chat/completions")
}

/// One header with the given name and value.
pub(crate) fn header(name: &str, value: &str) -> (r: (String, String))
    ensures
        r.0@ == name@,
        r.1@ == value@,
{
    (String::from_str(name), String::from_str(value))
}

/// The `messages` array of `prompt`.
pub fn encode_messages(prompt: &Prompt) -> (r: Vec<WireMessage>)
    ensures
        wire_view(r@) == wire_messages(*prompt),
{
    let mut out: Vec<WireMessage> = Vec::new();
    out.push(
        WireMessage {
            role: String::from_str("system"),
            content: prompt.get_full_instructions().clone(),
        },
    );
    let ghost tail = prompt.input@.map_values(
        |m: Message| (role_text(m.role), all_text(m@.content)),
    );
    let mut i: usize = 0;
    while i < prompt.input.len()
        invariant
            i <= prompt.input@.len(),
            tail == prompt.input@.map_values(
                |m: Message| (role_text(m.role), all_text(m@.content)),
            ),
            wire_view(out@) == seq![("system"@, prompt.full_instructions@)] + tail.subrange(
                0,
                i as int,
            ),
        decreases prompt.input.len() - i,
    {
        let m = &prompt.input[i];
        let w = WireMessage {
            role: String::from_str(m.role.as_str()),
            content: concat_text(&m.content),
        };
        let ghost before = out@;
        out.push(w);
        proof {
            assert(tail.subrange(0, i + 1) =~= tail.subrange(0, i as int).push(tail[i as int]));
            assert(wire_view(out@) =~= wire_view(out@.drop_last()).push((w.role@, w.content@)));
            assert(out@.drop_last() =~= before);
        }
        i = i + 1;
    }
    assert(tail.subrange(0, i as int) =~= tail);
    out
}

/// Encodes one request of `dialect` for `prompt`.
pub fn encode_request(
    prompt: &Prompt,
    model: &str,
    dialect: Dialect,
    base_url: &str,
    bearer: Option<String>,
) -> (r: Result<ChatRequest, DispatchError>)
    ensures
        match r {
            Ok(req) => !(dialect == Dialect::Copilot && bearer.is_none()) && req.url@
                == endpoint_for(base_url@) && opt_text(req.bearer) == opt_text(bearer)
                && headers_view(req.headers@) == headers_for(dialect) && req.body.model@
                == model_for(dialect, model@) && wire_view(req.body.messages@) == wire_messages(
                *prompt,
            ) && req.body.stream && req.body.copilot == options_for(dialect),
            Err(e) => dialect == Dialect::Copilot && bearer.is_none() && e@ == ErrorView::Auth(
                missing_bearer_detail(),
            ),
        },
{
    if dialect == Dialect::Copilot && bearer.is_none() {
        return Err(
            DispatchError::Auth(String::from_str("GitHub Copilot requires a bearer token")),
        );
    }
    let mut headers: Vec<(String, String)> = Vec::new();
    let copilot = match dialect {
        Dialect::Copilot => {
            headers.push(header("Editor-Version", "Codex/0.1.0"));
            headers.push(header("Content-Type", "application/json"));
            headers.push(header("Copilot-Integration-Id", "vscode-chat"));
            headers.push(header("Copilot-Vision-Request", "true"));
            Some(CopilotOptions { intent: true, temperature_tenths: 1, n: 1 })
        },
        Dialect::Generic => None,
    };
    headers.push(header("Accept", "text/event-stream"));
    let model_name = if dialect == Dialect::Copilot && model.unicode_len() == 0 {
        String::from_str("gpt-4")
    } else {
        String::from_str(model)
    };
    assert(headers_view(headers@) =~= headers_for(dialect));
    let body = ChatRequestBody {
        model: model_name,
        messages: encode_messages(prompt),
        stream: true,
        copilot,
    };
    Ok(ChatRequest { url: endpoint_url(base_url), bearer, headers, body })
}

/// The `messages` array mirrors the prompt: one system entry carrying the
/// instructions, then, in order, one entry per message with its role and
/// the concatenation of its text items.
pub proof fn lemma_messages_mirror_prompt(p: Prompt)
    ensures
        wire_messages(p).len() == p.input@.len() + 1,
        wire_messages(p)[0] == ("system"@, p.full_instructions@),
        forall|i: int|
            0 <= i < p.input@.len() ==> #[trigger] wire_messages(p)[i + 1] == (
                role_text(p.input@[i].role),
                all_text(p.input@[i]@.content),
            ),
{
}

/// A prompt of one user message holding one text encodes as exactly two
/// entries: the system entry, then the user entry with that text.
pub proof fn lemma_single_user_message(p: Prompt, text: String)
    requires
        p.input@.len() == 1,
        p.input@[0].role == Role::User,
        p.input@[0]@.content == seq![ContentView::InputText(text@)],
    ensures
        wire_messages(p).len() == 2,
        wire_messages(p)[1] == ("user"@, text@),
{
    lemma_messages_mirror_prompt(p);
    let c = p.input@[0]@.content;
    assert(c.drop_first() =~= Seq::<ContentView>::empty());
    assert(all_text(c.drop_first()) == Seq::<char>::empty());
    assert(text@ + Seq::<char>::empty() =~= text@);
    assert(wire_messages(p)[0int + 1] == wire_messages(p)[1]);
}

} // verus!
