use crate::dataclasses::{AllowedMention, Embed, MessageReference, Nounce, Snowflake};
use vstd::prelude::*;

verus! {

/// The body of a request that posts a message. A field that is `None` is
/// left to the server's default.
#[derive(Clone, Debug, PartialEq, Eq)]
pub struct CreateMessage {
    pub content: Option<String>,
    pub nounce: Option<Nounce>,
    pub tts: Option<bool>,
    pub embeds: Option<Vec<Embed>>,
    pub allowed_mentions: Option<AllowedMention>,
    pub message_reference: Option<MessageReference>,
}

impl CreateMessage {
    /// Whether there is anything to post: some text or at least one embed.
    pub open spec fn spec_has_body(&self) -> bool {
        (self.content matches Some(text) && text@.len() > 0) || (self.embeds matches Some(embeds)
            && embeds@.len() > 0)
    }

    /// Whether there is anything to post: some text or at least one embed.
    /// A request without either is refused by the server.
    #[verifier::when_used_as_spec(spec_has_body)]
    pub fn has_body(&self) -> (r: bool)
        ensures
            r == self.spec_has_body(),
    {
        let text = match &self.content {
            Some(text) => text.as_str().unicode_len() > 0,
            None => false,
        };
        let embeds = match &self.embeds {
            Some(embeds) => embeds.len() > 0,
            None => false,
        };
        text || embeds
    }
}

/// Builds the message to post to one channel, field by field.
pub struct PrepareCreateMessageBuilder {
    cm: CreateMessage,
    channel_id: Snowflake,
}

impl PrepareCreateMessageBuilder {
    /// The message as built so far.
    pub closed spec fn message(&self) -> CreateMessage {
        self.cm
    }

    /// The channel that the message is for.
    pub closed spec fn spec_channel_id(&self) -> Snowflake {
        self.channel_id
    }

    /// A message for `channel_id` with every field left open.
    pub fn new(channel_id: Snowflake) -> (r: PrepareCreateMessageBuilder)
        ensures
            r.spec_channel_id() == channel_id,
            r.message() == (CreateMessage {
                content: None,
                nounce: None,
                tts: None,
                embeds: None,
                allowed_mentions: None,
                message_reference: None,
            }),
    {
        PrepareCreateMessageBuilder {
            cm: CreateMessage {
                content: None,
                nounce: None,
                tts: None,
                embeds: None,
                allowed_mentions: None,
                message_reference: None,
            },
            channel_id,
        }
    }

    pub fn content(self, content: String) -> (r: PrepareCreateMessageBuilder)
        ensures
            r.spec_channel_id() == self.spec_channel_id(),
            r.message() == (CreateMessage { content: Some(content), ..self.message() }),
    {
        let mut cm = self.cm;
        cm.content = Some(content);
        PrepareCreateMessageBuilder { cm, channel_id: self.channel_id }
    }

    pub fn nounce(self, nounce: Nounce) -> (r: PrepareCreateMessageBuilder)
        ensures
            r.spec_channel_id() == self.spec_channel_id(),
            r.message() == (CreateMessage { nounce: Some(nounce), ..self.message() }),
    {
        let mut cm = self.cm;
        cm.nounce = Some(nounce);
        PrepareCreateMessageBuilder { cm, channel_id: self.channel_id }
    }

    pub fn tts(self, tts: bool) -> (r: PrepareCreateMessageBuilder)
        ensures
            r.spec_channel_id() == self.spec_channel_id(),
            r.message() == (CreateMessage { tts: Some(tts), ..self.message() }),
    {
        let mut cm = self.cm;
        cm.tts = Some(tts);
        PrepareCreateMessageBuilder { cm, channel_id: self.channel_id }
    }

    pub fn embeds(self, embeds: Vec<Embed>) -> (r: PrepareCreateMessageBuilder)
        ensures
            r.spec_channel_id() == self.spec_channel_id(),
            r.message() == (CreateMessage { embeds: Some(embeds), ..self.message() }),
    {
        let mut cm = self.cm;
        cm.embeds = Some(embeds);
        PrepareCreateMessageBuilder { cm, channel_id: self.channel_id }
    }

    pub fn allowed_mentions(self, allowed_mentions: AllowedMention) -> (r:
        PrepareCreateMessageBuilder)
        ensures
            r.spec_channel_id() == self.spec_channel_id(),
            r.message() == (CreateMessage {
                allowed_mentions: Some(allowed_mentions),
                ..self.message()
            }),
    {
        let mut cm = self.cm;
        cm.allowed_mentions = Some(allowed_mentions);
        PrepareCreateMessageBuilder { cm, channel_id: self.channel_id }
    }

    pub fn message_reference(self, message_reference: MessageReference) -> (r:
        PrepareCreateMessageBuilder)
        ensures
            r.spec_channel_id() == self.spec_channel_id(),
            r.message() == (CreateMessage {
                message_reference: Some(message_reference),
                ..self.message()
            }),
    {
        let mut cm = self.cm;
        cm.message_reference = Some(message_reference);
        PrepareCreateMessageBuilder { cm, channel_id: self.channel_id }
    }

    /// The channel that the message is for.
    pub fn channel_id(&self) -> (r: Snowflake)
        ensures
            r == self.spec_channel_id(),
    {
        self.channel_id
    }

    /// The path of the request that posts the message, below the base of
    /// the API: `/channels/{channel id}/messages`.
    pub fn path(&self) -> (r: String)
        ensures
            r@ == "/channels/"@ + crate::decimal::decimal(self.spec_channel_id().as_u64() as nat)
                + "/messages"@,
    {
        let mut path = String::from_str("/channels/");
        let id = self.channel_id.to_string();
        path.append(id.as_str());
        path.append("/messages");
        path
    }

    /// The channel and the finished message, ready to be posted.
    pub fn build(self) -> (r: (Snowflake, CreateMessage))
        ensures
            r.0 == self.spec_channel_id(),
            r.1 == self.message(),
    {
        (self.channel_id, self.cm)
    }
}

} // verus!
