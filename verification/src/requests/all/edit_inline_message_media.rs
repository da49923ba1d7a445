use vstd::prelude::*;

use crate::bot::Bot;
use crate::requests::dispatch::{
    lemma_names_append, lemma_value_of_concat, lemma_value_of_optional, lemma_value_of_required,
    names, optional, required, value_of, Field, FieldValue, Transport,
};
use crate::requests::payload::{Payload, Request};
use crate::requests::setters::Settable;
use crate::types::{InlineKeyboardMarkup, InputMedia, True};

verus! {

/// Edits animation, audio, document, photo, or video messages sent via the
/// bot.
///
/// If a message is a part of a message album, then it can be edited only to a
/// photo or a video. Otherwise, message type can be changed arbitrarily. When
/// this method is used, a new file can't be uploaded: use a previously
/// uploaded file via its file id or specify a URL. On success, [`True`] is
/// returned.
///
/// [The official docs](https://core.telegram.org/bots/api#editmessagemedia).
#[derive(Debug, Clone)]
pub struct EditInlineMessageMedia {
    /// The bot that sends the request; not part of the serialized form.
    pub bot: Bot,
    pub inline_message_id: String,
    pub media: InputMedia,
    pub reply_markup: Option<InlineKeyboardMarkup>,
}

/// One call of a setter of [`EditInlineMessageMedia`], with its argument.
pub enum Setter {
    InlineMessageId(String),
    Media(InputMedia),
    ReplyMarkup(InlineKeyboardMarkup),
}

impl EditInlineMessageMedia {
    /// A request to replace the media of the inline message
    /// `inline_message_id`, with every optional field unset.
    pub fn new(bot: Bot, inline_message_id: String, media: InputMedia) -> (req: Self)
        ensures
            req == (Self { bot, inline_message_id, media, reply_markup: None }),
    {
        Self { bot, inline_message_id, media, reply_markup: None }
    }

    /// Identifier of the inline message.
    pub fn inline_message_id(self, val: String) -> (req: Self)
        ensures
            req == self.set(Setter::InlineMessageId(val)),
    {
        let mut req = self;
        req.inline_message_id = val;
        req
    }

    /// The new media content of the message.
    pub fn media(self, val: InputMedia) -> (req: Self)
        ensures
            req == self.set(Setter::Media(val)),
    {
        let mut req = self;
        req.media = val;
        req
    }

    /// A new inline keyboard.
    pub fn reply_markup(self, val: InlineKeyboardMarkup) -> (req: Self)
        ensures
            req == self.set(Setter::ReplyMarkup(val)),
    {
        let mut req = self;
        req.reply_markup = Some(val);
        req
    }

    /// The serialized form holds no name twice. A required field is always in
    /// it; the optional field is in it exactly when it is set, and then with
    /// the value it was set to. Nothing else is in it: in particular, the bot
    /// is not.
    pub proof fn lemma_serialized_form(self)
        ensures
            names(self.serialized()).no_duplicates(),
            value_of(self.serialized(), "inline_message_id"@) == Some(
                FieldValue::Text(&self.inline_message_id),
            ),
            value_of(self.serialized(), "media"@) == Some(FieldValue::Media(&self.media)),
            value_of(self.serialized(), "reply_markup"@) == FieldValue::inline_keyboard(
                self.reply_markup,
            ),
            forall|name: Seq<char>| #[trigger]
                value_of(self.serialized(), name) is Some ==> name == "inline_message_id"@ || name
                    == "media"@ || name == "reply_markup"@,
    {
        reveal_strlit("inline_message_id");
        reveal_strlit("media");
        reveal_strlit("reply_markup");
        assert("inline_message_id"@.len() == 17 && "media"@.len() == 5);
        assert("reply_markup"@.len() == 12);
        let f0 = required("inline_message_id", FieldValue::Text(&self.inline_message_id));
        let f1 = required("media", FieldValue::Media(&self.media));
        let f2 = optional("reply_markup", FieldValue::inline_keyboard(self.reply_markup));
        let s1 = f0 + f1;
        assert(s1 + f2 == self.serialized());
        lemma_value_of_required("inline_message_id", FieldValue::Text(&self.inline_message_id));
        lemma_value_of_required("media", FieldValue::Media(&self.media));
        lemma_value_of_optional("reply_markup", FieldValue::inline_keyboard(self.reply_markup));
        lemma_value_of_concat(f0, f1);
        lemma_value_of_concat(s1, f2);
        lemma_names_append(f0, "media", Some(FieldValue::Media(&self.media)));
        lemma_names_append(s1, "reply_markup", FieldValue::inline_keyboard(self.reply_markup));
    }
}

impl Settable for EditInlineMessageMedia {
    type Setter = Setter;

    open spec fn target(setter: Setter) -> int {
        match setter {
            Setter::InlineMessageId(_) => 0,
            Setter::Media(_) => 1,
            Setter::ReplyMarkup(_) => 2,
        }
    }

    open spec fn set(self, setter: Setter) -> Self {
        match setter {
            Setter::InlineMessageId(val) => Self { inline_message_id: val, ..self },
            Setter::Media(val) => Self { media: val, ..self },
            Setter::ReplyMarkup(val) => Self { reply_markup: Some(val), ..self },
        }
    }

    proof fn lemma_setters_commute(self, a: Setter, b: Setter) {
    }
}

impl Payload for EditInlineMessageMedia {
    type Output = True;

    open spec fn spec_name() -> Seq<char> {
        "editMessageMedia"@
    }

    open spec fn serialized(&self) -> Seq<Field<'_>> {
        required("inline_message_id", FieldValue::Text(&self.inline_message_id))
            + required("media", FieldValue::Media(&self.media))
            + optional("reply_markup", FieldValue::inline_keyboard(self.reply_markup))
    }

    fn name() -> (name: &'static str) {
        proof {
            reveal_strlit("editMessageMedia");
        }
        "editMessageMedia"
    }

    fn fields(&self) -> (fields: Vec<Field<'_>>) {
        let mut fields = Vec::new();
        fields.push(
            Field { name: "inline_message_id", value: FieldValue::Text(&self.inline_message_id) },
        );
        fields.push(Field { name: "media", value: FieldValue::Media(&self.media) });
        if let Some(val) = &self.reply_markup {
            fields.push(Field { name: "reply_markup", value: FieldValue::InlineKeyboard(val) });
        }
        assert(fields@ =~= self.serialized());
        fields
    }

    proof fn lemma_names_are_distinct(&self) {
        self.lemma_serialized_form();
    }
}

impl Request for EditInlineMessageMedia {
    open spec fn spec_transport() -> Transport {
        Transport::Multipart
    }

    open spec fn spec_bot(&self) -> Bot {
        self.bot
    }

    fn transport() -> (transport: Transport) {
        Transport::Multipart
    }

    fn bot(&self) -> (bot: &Bot) {
        &self.bot
    }
}

} // verus!
