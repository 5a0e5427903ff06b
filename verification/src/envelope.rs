//! The request envelope that is sent to the provider, and its JSON form.

use vstd::prelude::*;
use crate::json::{json_string, quote};
use crate::text::{decimal, decimal_text, join, joined, texts};

verus! {

/// What a [`Message`] holds.
pub struct MessageView {
    pub role: Seq<char>,
    pub content: Seq<char>,
}

/// One turn of the conversation. It cannot be changed once it is made.
#[derive(Debug, PartialEq, Eq)]
pub struct Message {
    role: String,
    content: String,
}

impl View for Message {
    type V = MessageView;

    closed spec fn view(&self) -> MessageView {
        MessageView { role: self.role@, content: self.content@ }
    }
}

/// What a [`ProviderRequest`] holds.
pub struct ProviderRequestView {
    pub model: Seq<char>,
    pub max_tokens: nat,
    pub messages: Seq<MessageView>,
}

/// The payload of one call to the provider. Every value of this type has a
/// positive token limit and at least one message.
#[derive(Debug, PartialEq, Eq)]
pub struct ProviderRequest {
    model: String,
    max_tokens: u32,
    messages: Vec<Message>,
}

/// What each of a sequence of messages holds.
pub open spec fn message_views(messages: Seq<Message>) -> Seq<MessageView> {
    Seq::new(messages.len(), |i: int| messages[i]@)
}

impl View for ProviderRequest {
    type V = ProviderRequestView;

    closed spec fn view(&self) -> ProviderRequestView {
        ProviderRequestView {
            model: self.model@,
            max_tokens: self.max_tokens as nat,
            messages: message_views(self.messages@),
        }
    }
}

/// The invariant of the data model: a positive token limit and a conversation
/// that is not empty. It holds of every [`ProviderRequest`], as its accessors
/// state.
pub open spec fn is_valid_request(request: ProviderRequestView) -> bool {
    request.max_tokens > 0 && request.messages.len() > 0
}

/// The token limit of the envelope that the gateway sends.
pub const GREETING_MAX_TOKENS: u32 = 1024;

/// The envelope that the gateway sends to `model`: one greeting from the user,
/// to be answered within [`GREETING_MAX_TOKENS`] tokens.
pub open spec fn greeting_request(model: Seq<char>) -> ProviderRequestView {
    ProviderRequestView {
        model,
        max_tokens: GREETING_MAX_TOKENS as nat,
        messages: seq![MessageView { role: "user"@, content: "Hello, world"@ }],
    }
}

/// A message object, given the JSON literals of its two strings.
pub open spec fn message_frame(role_literal: Seq<char>, content_literal: Seq<char>) -> Seq<char> {
    "{\"role\":"@ + role_literal + ",\"content\":"@ + content_literal + "}"@
}

/// The request object, given the JSON literal of the model name, the token
/// limit and the message objects. The members come in the order the provider
/// documents them, without any white space.
pub open spec fn request_frame(
    model_literal: Seq<char>,
    max_tokens: nat,
    message_objects: Seq<Seq<char>>,
) -> Seq<char> {
    "{\"model\":"@ + model_literal + ",\"max_tokens\":"@ + decimal(max_tokens)
        + ",\"messages\":["@ + joined(message_objects, ","@) + "]}"@
}

/// The JSON object for one message.
pub open spec fn message_json(message: MessageView) -> Seq<char> {
    message_frame(json_string(message.role), json_string(message.content))
}

/// The JSON objects for a sequence of messages.
pub open spec fn message_objects(messages: Seq<MessageView>) -> Seq<Seq<char>> {
    Seq::new(messages.len(), |i: int| message_json(messages[i]))
}

/// The JSON body for a request.
pub open spec fn request_json(request: ProviderRequestView) -> Seq<char> {
    request_frame(
        json_string(request.model),
        request.max_tokens,
        message_objects(request.messages),
    )
}

/// Puts a message object together from the JSON literals of its role and its
/// content.
pub fn frame_message(role_literal: &str, content_literal: &str) -> (object: String)
    ensures
        object@ == message_frame(role_literal@, content_literal@),
{
    let mut object: String = String::from_str("{\"role\":");
    object.append(role_literal);
    object.append(",\"content\":");
    object.append(content_literal);
    object.append("}");
    object
}

/// Puts the request object together from the JSON literal of the model name,
/// the token limit and the message objects.
pub fn frame_request(model_literal: &str, max_tokens: u32, message_objects: &Vec<String>) -> (body:
    String)
    ensures
        body@ == request_frame(
            model_literal@,
            max_tokens as nat,
            texts(message_objects@),
        ),
{
    let limit: String = decimal_text(max_tokens);
    let list: String = join(message_objects, ",");
    let mut body: String = String::from_str("{\"model\":");
    body.append(model_literal);
    body.append(",\"max_tokens\":");
    body.append(limit.as_str());
    body.append(",\"messages\":[");
    body.append(list.as_str());
    body.append("]}");
    body
}

impl Clone for Message {
    fn clone(&self) -> (copy: Message)
        ensures
            copy@ == self@,
    {
        Message { role: self.role.clone(), content: self.content.clone() }
    }
}

impl Clone for ProviderRequest {
    fn clone(&self) -> (copy: ProviderRequest)
        ensures
            copy@ == self@,
    {
        proof {
            use_type_invariant(self);
        }
        let mut messages: Vec<Message> = Vec::new();
        let mut i: usize = 0;
        while i < self.messages.len()
            invariant
                i <= self.messages.len(),
                messages.len() == i,
                forall|k: int| 0 <= k < i ==> (#[trigger] messages@[k])@ == self.messages@[k]@,
            decreases self.messages.len() - i,
        {
            messages.push(self.messages[i].clone());
            i += 1;
        }
        proof {
            assert(message_views(messages@) =~= message_views(self.messages@));
        }
        ProviderRequest { model: self.model.clone(), max_tokens: self.max_tokens, messages }
    }
}

impl Message {
    /// A message with the given role and content. Neither is inspected.
    pub fn new(role: &str, content: &str) -> (message: Message)
        ensures
            message@ == (MessageView { role: role@, content: content@ }),
    {
        Message { role: String::from_str(role), content: String::from_str(content) }
    }

    /// Who speaks.
    pub fn role(&self) -> (role: &str)
        ensures
            role@ == self@.role,
    {
        self.role.as_str()
    }

    /// What is said.
    pub fn content(&self) -> (content: &str)
        ensures
            content@ == self@.content,
    {
        self.content.as_str()
    }

    /// The message as a JSON object.
    pub fn to_json(&self) -> (object: String)
        ensures
            object@ == message_json(self@),
    {
        let role: String = quote(self.role.as_str());
        let content: String = quote(self.content.as_str());
        frame_message(role.as_str(), content.as_str())
    }
}

impl ProviderRequest {
    #[verifier::type_invariant]
    spec fn well_formed(self) -> bool {
        self.max_tokens > 0 && self.messages.len() > 0
    }

    /// A request for `model` with the given token limit and conversation, or
    /// nothing if the limit is zero or the conversation is empty. The model name
    /// is taken as it is.
    pub fn new(model: &str, max_tokens: u32, messages: Vec<Message>) -> (request: Option<
        ProviderRequest,
    >)
        ensures
            request is Some <==> max_tokens > 0 && messages.len() > 0,
            request matches Some(made) ==> made@ == (ProviderRequestView {
                model: model@,
                max_tokens: max_tokens as nat,
                messages: message_views(messages@),
            }),
    {
        if max_tokens == 0 || messages.len() == 0 {
            None
        } else {
            Some(ProviderRequest { model: String::from_str(model), max_tokens, messages })
        }
    }

    /// The envelope that the gateway sends to `model`: one greeting from the
    /// user. The model name is taken as it is.
    pub fn greeting(model: &str) -> (request: ProviderRequest)
        ensures
            request@ == greeting_request(model@),
    {
        let mut messages: Vec<Message> = Vec::new();
        messages.push(Message::new("user", "Hello, world"));
        proof {
            assert(message_views(messages@) =~= greeting_request(model@).messages);
        }
        ProviderRequest {
            model: String::from_str(model),
            max_tokens: GREETING_MAX_TOKENS,
            messages,
        }
    }

    /// The model that is asked.
    pub fn model(&self) -> (model: &str)
        ensures
            model@ == self@.model,
            is_valid_request(self@),
    {
        proof {
            use_type_invariant(self);
        }
        self.model.as_str()
    }

    /// The token limit, which is never zero.
    pub fn max_tokens(&self) -> (limit: u32)
        ensures
            limit == self@.max_tokens,
            limit > 0,
            is_valid_request(self@),
    {
        proof {
            use_type_invariant(self);
        }
        self.max_tokens
    }

    /// The conversation, which is never empty.
    pub fn messages(&self) -> (messages: &Vec<Message>)
        ensures
            message_views(messages@) == self@.messages,
            messages.len() > 0,
            is_valid_request(self@),
    {
        proof {
            use_type_invariant(self);
        }
        &self.messages
    }

    /// The request as the JSON body that the provider expects.
    pub fn to_json(&self) -> (body: String)
        ensures
            body@ == request_json(self@),
    {
        let model: String = quote(self.model.as_str());
        let mut objects: Vec<String> = Vec::new();
        let mut i: usize = 0;
        while i < self.messages.len()
            invariant
                i <= self.messages.len(),
                objects.len() == i,
                forall|k: int|
                    0 <= k < i ==> (#[trigger] objects@[k])@ == message_json(self.messages@[k]@),
            decreases self.messages.len() - i,
        {
            let object: String = self.messages[i].to_json();
            objects.push(object);
            i += 1;
        }
        proof {
            assert(texts(objects@) =~= message_objects(self@.messages));
        }
        frame_request(model.as_str(), self.max_tokens, &objects)
    }
}

} // verus!
