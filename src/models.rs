use vstd::prelude::*;
use crate::error::{DispatchError, ErrorView};

verus! {

/// Author of a message.
#[derive(Debug, Clone, Copy, PartialEq, Eq, Structural)]
pub enum Role {
    System,
    User,
    Assistant,
}

/// The wire name of a role.
pub open spec fn role_text(r: Role) -> Seq<char> {
    match r {
        Role::System => "system"@,
        Role::User => "user"@,
        Role::Assistant => "assistant"@,
    }
}

impl Role {
    /// The wire name of this role.
    pub fn as_str(&self) -> (r: &'static str)
        ensures
            r@ == role_text(*self),
    {
        match self {
            Role::System => "system",
            Role::User => "user",
            Role::Assistant => "assistant",
        }
    }
}

/// One piece of message content. Only the text variants take part in the
/// wire encoding and in aggregation.
#[derive(Debug, Clone)]
pub enum ContentItem {
    InputText { text: String },
    OutputText { text: String },
    InputImage { image_url: String },
}

/// Model of a `ContentItem`.
pub enum ContentView {
    InputText(Seq<char>),
    OutputText(Seq<char>),
    InputImage(Seq<char>),
}

impl View for ContentItem {
    type V = ContentView;

    open spec fn view(&self) -> ContentView {
        match self {
            ContentItem::InputText { text } => ContentView::InputText(text@),
            ContentItem::OutputText { text } => ContentView::OutputText(text@),
            ContentItem::InputImage { image_url } => ContentView::InputImage(image_url@),
        }
    }
}

/// A message: a role and ordered content.
#[derive(Debug, Clone)]
pub struct Message {
    pub role: Role,
    pub content: Vec<ContentItem>,
}

/// Model of a `Message`.
pub struct MessageView {
    pub role: Role,
    pub content: Seq<ContentView>,
}

impl View for Message {
    type V = MessageView;

    open spec fn view(&self) -> MessageView {
        MessageView { role: self.role, content: self.content@.map_values(|c: ContentItem| c@) }
    }
}

/// Concatenation, in order, of the text of every `InputText` and
/// `OutputText` item; other items contribute nothing.
pub open spec fn all_text(items: Seq<ContentView>) -> Seq<char>
    decreases items.len(),
{
    if items.len() == 0 {
        Seq::empty()
    } else {
        let head = match items[0] {
            ContentView::InputText(t) => t,
            ContentView::OutputText(t) => t,
            ContentView::InputImage(_) => Seq::empty(),
        };
        head + all_text(items.drop_first())
    }
}

/// Concatenation, in order, of the text of every `OutputText` item.
pub open spec fn output_text(items: Seq<ContentView>) -> Seq<char>
    decreases items.len(),
{
    if items.len() == 0 {
        Seq::empty()
    } else {
        let head = match items[0] {
            ContentView::OutputText(t) => t,
            _ => Seq::empty(),
        };
        head + output_text(items.drop_first())
    }
}

/// An assistant message carrying one piece of output text.
pub open spec fn assistant_text_message(t: Seq<char>) -> MessageView {
    MessageView { role: Role::Assistant, content: seq![ContentView::OutputText(t)] }
}

/// Normalized event vocabulary shared by every dialect.
#[derive(Debug, Clone)]
pub enum ResponseEvent {
    OutputItemDone(Message),
    Completed { response_id: String },
}

/// Model of a `ResponseEvent`.
pub enum EventView {
    OutputItemDone(MessageView),
    Completed(Seq<char>),
}

impl View for ResponseEvent {
    type V = EventView;

    open spec fn view(&self) -> EventView {
        match self {
            ResponseEvent::OutputItemDone(m) => EventView::OutputItemDone(m@),
            ResponseEvent::Completed { response_id } => EventView::Completed(response_id@),
        }
    }
}

/// Model of an item of the event queue.
pub open spec fn item_view(r: Result<ResponseEvent, DispatchError>) -> Result<EventView, ErrorView> {
    match r {
        Ok(e) => Ok(e@),
        Err(e) => Err(e@),
    }
}

/// Model of a sequence of queue items.
pub open spec fn items_view(rs: Seq<Result<ResponseEvent, DispatchError>>) -> Seq<Result<EventView, ErrorView>> {
    rs.map_values(|r: Result<ResponseEvent, DispatchError>| item_view(r))
}

/// Builds an assistant message holding `text` as its only output text.
pub fn assistant_message(text: String) -> (r: Message)
    ensures
        r@ == assistant_text_message(text@),
{
    let mut content: Vec<ContentItem> = Vec::new();
    content.push(ContentItem::OutputText { text });
    let r = Message { role: Role::Assistant, content };
    assert(r@.content =~= seq![ContentView::OutputText(text@)]);
    r
}

/// Concatenated text of the text items of `items`.
pub fn concat_text(items: &Vec<ContentItem>) -> (r: String)
    ensures
        r@ == all_text(items@.map_values(|c: ContentItem| c@)),
{
    let ghost view = items@.map_values(|c: ContentItem| c@);
    let mut acc = String::new();
    let mut k: usize = 0;
    assert(view.subrange(0, view.len() as int) =~= view);
    while k < items.len()
        invariant
            k <= items.len(),
            view == items@.map_values(|c: ContentItem| c@),
            acc@ + all_text(view.subrange(k as int, view.len() as int)) == all_text(view),
        decreases items.len() - k,
    {
        let ghost before = acc@;
        let ghost rest = view.subrange(k as int, view.len() as int);
        proof {
            assert(rest.drop_first() =~= view.subrange(k + 1, view.len() as int));
        }
        match &items[k] {
            ContentItem::InputText { text } => acc.append(text.as_str()),
            ContentItem::OutputText { text } => acc.append(text.as_str()),
            ContentItem::InputImage { .. } => {},
        }
        proof {
            let head = match rest[0] {
                ContentView::InputText(t) => t,
                ContentView::OutputText(t) => t,
                ContentView::InputImage(_) => Seq::empty(),
            };
            assert(acc@ == before + head);
            let tail = all_text(view.subrange(k + 1, view.len() as int));
            assert(before + (head + tail) =~= (before + head) + tail);
        }
        k = k + 1;
    }
    assert(view.subrange(k as int, view.len() as int) =~= Seq::<ContentView>::empty());
    assert(acc@ + Seq::<char>::empty() =~= acc@);
    acc
}

/// Concatenated text of the `OutputText` items of `items`.
pub fn concat_output_text(items: &Vec<ContentItem>) -> (r: String)
    ensures
        r@ == output_text(items@.map_values(|c: ContentItem| c@)),
{
    let ghost view = items@.map_values(|c: ContentItem| c@);
    let mut acc = String::new();
    let mut k: usize = 0;
    assert(view.subrange(0, view.len() as int) =~= view);
    while k < items.len()
        invariant
            k <= items.len(),
            view == items@.map_values(|c: ContentItem| c@),
            acc@ + output_text(view.subrange(k as int, view.len() as int)) == output_text(view),
        decreases items.len() - k,
    {
        let ghost before = acc@;
        let ghost rest = view.subrange(k as int, view.len() as int);
        proof {
            assert(rest.drop_first() =~= view.subrange(k + 1, view.len() as int));
        }
        match &items[k] {
            ContentItem::OutputText { text } => acc.append(text.as_str()),
            _ => {},
        }
        proof {
            let head = match rest[0] {
                ContentView::OutputText(t) => t,
                _ => Seq::empty(),
            };
            assert(acc@ == before + head);
            let tail = output_text(view.subrange(k + 1, view.len() as int));
            assert(before + (head + tail) =~= (before + head) + tail);
        }
        k = k + 1;
    }
    assert(view.subrange(k as int, view.len() as int) =~= Seq::<ContentView>::empty());
    assert(acc@ + Seq::<char>::empty() =~= acc@);
    acc
}

/// A fully assembled prompt: ordered history and the full instructions.
#[derive(Debug, Clone)]
pub struct Prompt {
    pub input: Vec<Message>,
    pub full_instructions: String,
}

impl Prompt {
    /// The instructions sent as the leading system message.
    pub fn get_full_instructions(&self) -> (r: &String)
        ensures
            r@ == self.full_instructions@,
    {
        &self.full_instructions
    }
}

/// A resolved provider: where requests go and how they are authorized.
#[derive(Debug, Clone)]
pub struct ModelProviderInfo {
    /// Display name; it selects the wire dialect.
    pub name: String,
    pub base_url: String,
    /// A static API key, when one is configured.
    pub api_key: Option<String>,
    /// Whether, with no static key, a bearer token must be obtained.
    pub requires_external_token: bool,
}

/// Model of an optional text.
pub open spec fn opt_text(o: Option<String>) -> Option<Seq<char>> {
    match o {
        Some(s) => Some(s@),
        None => None,
    }
}

} // verus!
