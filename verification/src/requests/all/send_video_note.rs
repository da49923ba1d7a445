use vstd::prelude::*;

use crate::bot::Bot;
use crate::requests::dispatch::{
    lemma_names_append, lemma_value_of_concat, lemma_value_of_optional, lemma_value_of_required,
    names, optional, required, value_of, Field,
    FieldValue, Transport,
};
use crate::requests::payload::{Payload, Request};
use crate::requests::setters::Settable;
use crate::types::{ChatId, InputFile, Message, ReplyMarkup};

verus! {

/// Sends a video message: a rounded square mp4 video of up to one minute.
///
/// [The official docs](https://core.telegram.org/bots/api#sendvideonote).
#[derive(Debug, Clone)]
pub struct SendVideoNote {
    /// The bot that sends the request; not part of the serialized form.
    pub bot: Bot,
    pub chat_id: ChatId,
    pub video_note: InputFile,
    pub duration: Option<i32>,
    pub length: Option<i32>,
    pub thumb: Option<InputFile>,
    pub disable_notification: Option<bool>,
    pub reply_to_message_id: Option<i32>,
    pub reply_markup: Option<ReplyMarkup>,
}

/// One call of a setter of [`SendVideoNote`], with its argument.
pub enum Setter {
    ChatId(ChatId),
    VideoNote(InputFile),
    Duration(i32),
    Length(i32),
    Thumb(InputFile),
    DisableNotification(bool),
    ReplyToMessageId(i32),
    ReplyMarkup(ReplyMarkup),
}

impl SendVideoNote {
    /// A request to send `video_note` to `chat_id`, with every optional field unset.
    pub fn new(bot: Bot, chat_id: ChatId, video_note: InputFile) -> (req: Self)
        ensures
            req == (Self {
                bot,
                chat_id,
                video_note,
                duration: None,
                length: None,
                thumb: None,
                disable_notification: None,
                reply_to_message_id: None,
                reply_markup: None,
            }),
    {
        Self {
            bot,
            chat_id,
            video_note,
            duration: None,
            length: None,
            thumb: None,
            disable_notification: None,
            reply_to_message_id: None,
            reply_markup: None,
        }
    }

    /// Unique identifier for the target chat or username of the target channel
    /// (in the format `@channelusername`).
    pub fn chat_id(self, val: ChatId) -> (req: Self)
        ensures
            req == self.set(Setter::ChatId(val)),
    {
        let mut req = self;
        req.chat_id = val;
        req
    }

    /// Video note to send.
    ///
    /// Pass [`InputFile::FileId`] to send a file that exists on the Telegram
    /// servers (recommended), pass an [`InputFile::Url`] for Telegram to get the
    /// file from the Internet, or upload a new one using [`InputFile::File`].
    pub fn video_note(self, val: InputFile) -> (req: Self)
        ensures
            req == self.set(Setter::VideoNote(val)),
    {
        let mut req = self;
        req.video_note = val;
        req
    }

    /// Duration of sent video in seconds.
    pub fn duration(self, val: i32) -> (req: Self)
        ensures
            req == self.set(Setter::Duration(val)),
    {
        let mut req = self;
        req.duration = Some(val);
        req
    }

    /// Video width and height, i.e. diameter of the video message.
    pub fn length(self, val: i32) -> (req: Self)
        ensures
            req == self.set(Setter::Length(val)),
    {
        let mut req = self;
        req.length = Some(val);
        req
    }

    /// Thumbnail of the file sent; can be ignored if thumbnail generation for
    /// the file is supported server-side.
    pub fn thumb(self, val: InputFile) -> (req: Self)
        ensures
            req == self.set(Setter::Thumb(val)),
    {
        let mut req = self;
        req.thumb = Some(val);
        req
    }

    /// Sends the message silently. Users will receive a notification with no
    /// sound.
    pub fn disable_notification(self, val: bool) -> (req: Self)
        ensures
            req == self.set(Setter::DisableNotification(val)),
    {
        let mut req = self;
        req.disable_notification = Some(val);
        req
    }

    /// If the message is a reply, ID of the original message.
    pub fn reply_to_message_id(self, val: i32) -> (req: Self)
        ensures
            req == self.set(Setter::ReplyToMessageId(val)),
    {
        let mut req = self;
        req.reply_to_message_id = Some(val);
        req
    }

    /// Additional interface options: an inline keyboard, a custom reply
    /// keyboard, instructions to remove the reply keyboard or to force a reply
    /// from the user.
    pub fn reply_markup(self, val: ReplyMarkup) -> (req: Self)
        ensures
            req == self.set(Setter::ReplyMarkup(val)),
    {
        let mut req = self;
        req.reply_markup = Some(val);
        req
    }
}

impl SendVideoNote {
    /// The serialized form holds no name twice. A required field is always in
    /// it; an optional field is in it exactly when it is set, and then with
    /// the value it was set to. Nothing else is in it: in particular, the bot
    /// is not.
    pub proof fn lemma_serialized_form(self)
        ensures
            names(self.serialized()).no_duplicates(),
            value_of(self.serialized(), "chat_id"@) == Some(FieldValue::Chat(&self.chat_id)),
            value_of(self.serialized(), "video_note"@) == Some(
                FieldValue::File(&self.video_note),
            ),
            value_of(self.serialized(), "duration"@) == FieldValue::integer(self.duration),
            value_of(self.serialized(), "length"@) == FieldValue::integer(self.length),
            value_of(self.serialized(), "thumb"@) == FieldValue::file(self.thumb),
            value_of(self.serialized(), "disable_notification"@) == FieldValue::boolean(
                self.disable_notification,
            ),
            value_of(self.serialized(), "reply_to_message_id"@) == FieldValue::integer(
                self.reply_to_message_id,
            ),
            value_of(self.serialized(), "reply_markup"@) == FieldValue::markup(self.reply_markup),
            forall|name: Seq<char>| #[trigger]
                value_of(self.serialized(), name) is Some ==> name == "chat_id"@ || name
                    == "video_note"@ || name == "duration"@ || name == "length"@ || name
                    == "thumb"@ || name == "disable_notification"@ || name
                    == "reply_to_message_id"@ || name == "reply_markup"@,
    {
        reveal_strlit("chat_id");
        reveal_strlit("video_note");
        reveal_strlit("duration");
        reveal_strlit("length");
        reveal_strlit("thumb");
        reveal_strlit("disable_notification");
        reveal_strlit("reply_to_message_id");
        reveal_strlit("reply_markup");
        assert("chat_id"@.len() == 7 && "video_note"@.len() == 10 && "duration"@.len() == 8);
        assert("length"@.len() == 6 && "thumb"@.len() == 5 && "reply_markup"@.len() == 12);
        assert("disable_notification"@.len() == 20 && "reply_to_message_id"@.len() == 19);
        let f0 = required("chat_id", FieldValue::Chat(&self.chat_id));
        let f1 = required("video_note", FieldValue::File(&self.video_note));
        let f2 = optional("duration", FieldValue::integer(self.duration));
        let f3 = optional("length", FieldValue::integer(self.length));
        let f4 = optional("thumb", FieldValue::file(self.thumb));
        let f5 = optional("disable_notification", FieldValue::boolean(self.disable_notification));
        let f6 = optional("reply_to_message_id", FieldValue::integer(self.reply_to_message_id));
        let f7 = optional("reply_markup", FieldValue::markup(self.reply_markup));
        let s1 = f0 + f1;
        let s2 = s1 + f2;
        let s3 = s2 + f3;
        let s4 = s3 + f4;
        let s5 = s4 + f5;
        let s6 = s5 + f6;
        let s7 = s6 + f7;
        assert(s7 == self.serialized());
        lemma_value_of_required("chat_id", FieldValue::Chat(&self.chat_id));
        lemma_value_of_required("video_note", FieldValue::File(&self.video_note));
        lemma_value_of_optional("duration", FieldValue::integer(self.duration));
        lemma_value_of_optional("length", FieldValue::integer(self.length));
        lemma_value_of_optional("thumb", FieldValue::file(self.thumb));
        lemma_value_of_optional(
            "disable_notification",
            FieldValue::boolean(self.disable_notification),
        );
        lemma_value_of_optional(
            "reply_to_message_id",
            FieldValue::integer(self.reply_to_message_id),
        );
        lemma_value_of_optional("reply_markup", FieldValue::markup(self.reply_markup));
        lemma_value_of_concat(f0, f1);
        lemma_value_of_concat(s1, f2);
        lemma_value_of_concat(s2, f3);
        lemma_value_of_concat(s3, f4);
        lemma_value_of_concat(s4, f5);
        lemma_value_of_concat(s5, f6);
        lemma_value_of_concat(s6, f7);
        lemma_names_append(f0, "video_note", Some(FieldValue::File(&self.video_note)));
        lemma_names_append(s1, "duration", FieldValue::integer(self.duration));
        lemma_names_append(s2, "length", FieldValue::integer(self.length));
        lemma_names_append(s3, "thumb", FieldValue::file(self.thumb));
        lemma_names_append(
            s4,
            "disable_notification",
            FieldValue::boolean(self.disable_notification),
        );
        lemma_names_append(
            s5,
            "reply_to_message_id",
            FieldValue::integer(self.reply_to_message_id),
        );
        lemma_names_append(s6, "reply_markup", FieldValue::markup(self.reply_markup));
    }
}

impl Settable for SendVideoNote {
    type Setter = Setter;

    open spec fn target(setter: Setter) -> int {
        match setter {
            Setter::ChatId(_) => 0,
            Setter::VideoNote(_) => 1,
            Setter::Duration(_) => 2,
            Setter::Length(_) => 3,
            Setter::Thumb(_) => 4,
            Setter::DisableNotification(_) => 5,
            Setter::ReplyToMessageId(_) => 6,
            Setter::ReplyMarkup(_) => 7,
        }
    }

    open spec fn set(self, setter: Setter) -> Self {
        match setter {
            Setter::ChatId(val) => Self { chat_id: val, ..self },
            Setter::VideoNote(val) => Self { video_note: val, ..self },
            Setter::Duration(val) => Self { duration: Some(val), ..self },
            Setter::Length(val) => Self { length: Some(val), ..self },
            Setter::Thumb(val) => Self { thumb: Some(val), ..self },
            Setter::DisableNotification(val) => Self { disable_notification: Some(val), ..self },
            Setter::ReplyToMessageId(val) => Self { reply_to_message_id: Some(val), ..self },
            Setter::ReplyMarkup(val) => Self { reply_markup: Some(val), ..self },
        }
    }

    proof fn lemma_setters_commute(self, a: Setter, b: Setter) {
    }
}

impl Payload for SendVideoNote {
    type Output = Message;

    open spec fn spec_name() -> Seq<char> {
        "sendVideoNote"@
    }

    open spec fn serialized(&self) -> Seq<Field<'_>> {
        required("chat_id", FieldValue::Chat(&self.chat_id))
            + required("video_note", FieldValue::File(&self.video_note))
            + optional("duration", FieldValue::integer(self.duration))
            + optional("length", FieldValue::integer(self.length))
            + optional("thumb", FieldValue::file(self.thumb))
            + optional("disable_notification", FieldValue::boolean(self.disable_notification))
            + optional("reply_to_message_id", FieldValue::integer(self.reply_to_message_id))
            + optional("reply_markup", FieldValue::markup(self.reply_markup))
    }

    fn name() -> (name: &'static str) {
        proof {
            reveal_strlit("sendVideoNote");
        }
        "sendVideoNote"
    }

    fn fields(&self) -> (fields: Vec<Field<'_>>) {
        let mut fields = Vec::new();
        fields.push(Field { name: "chat_id", value: FieldValue::Chat(&self.chat_id) });
        fields.push(Field { name: "video_note", value: FieldValue::File(&self.video_note) });
        if let Some(val) = self.duration {
            fields.push(Field { name: "duration", value: FieldValue::Integer(val) });
        }
        if let Some(val) = self.length {
            fields.push(Field { name: "length", value: FieldValue::Integer(val) });
        }
        if let Some(val) = &self.thumb {
            fields.push(Field { name: "thumb", value: FieldValue::File(val) });
        }
        if let Some(val) = self.disable_notification {
            fields.push(Field { name: "disable_notification", value: FieldValue::Boolean(val) });
        }
        if let Some(val) = self.reply_to_message_id {
            fields.push(Field { name: "reply_to_message_id", value: FieldValue::Integer(val) });
        }
        if let Some(val) = &self.reply_markup {
            fields.push(Field { name: "reply_markup", value: FieldValue::Markup(val) });
        }
        assert(fields@ =~= self.serialized());
        fields
    }

    proof fn lemma_names_are_distinct(&self) {
        self.lemma_serialized_form();
    }
}

impl Request for SendVideoNote {
    open spec fn spec_transport() -> Transport {
        Transport::Multipart
    }

    open spec fn spec_bot(&self) -> Bot {
        self.bot
    }

    fn transport() -> (transport: Transport) {
        Transport::Multipart
    }

    fn bot(&self) -> (bot: &Bot) {
        &self.bot
    }
}

} // verus!
