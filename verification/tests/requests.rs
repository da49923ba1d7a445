use tg_requests::bot::Bot;
use tg_requests::payloads::{GetMe, GetMeSetters};
use tg_requests::requests::{
    Dispatch, EditInlineMessageMedia, Field, FieldValue, HasPayload, Payload, Request,
    SendVideoNote, Transport,
};
use tg_requests::types::{
    ChatId, InlineKeyboardButton, InlineKeyboardButtonKind, InlineKeyboardMarkup, InputFile,
    InputMedia, InputMediaKind, KeyboardButton, ReplyKeyboardMarkup, ReplyMarkup,
};

fn bot() -> Bot {
    Bot::new(String::from("123456:TOKEN"))
}

fn note() -> SendVideoNote {
    SendVideoNote::new(bot(), ChatId::Id(42), InputFile::FileId(String::from("note-1")))
}

fn photo() -> InputMedia {
    InputMedia {
        kind: InputMediaKind::Photo,
        media: InputFile::Url(String::from("https://example.org/cat.png")),
        caption: Some(String::from("a cat")),
    }
}

fn keyboard() -> InlineKeyboardMarkup {
    InlineKeyboardMarkup {
        inline_keyboard: vec![vec![InlineKeyboardButton {
            text: String::from("open"),
            kind: InlineKeyboardButtonKind::Url(String::from("https://example.org")),
        }]],
    }
}

fn names(fields: &[Field<'_>]) -> Vec<&'static str> {
    let mut out = Vec::new();
    for field in fields {
        out.push(field.name);
    }
    out
}

#[test]
fn bot_keeps_its_token() {
    assert_eq!(bot().token(), "123456:TOKEN");
    assert_eq!(Bot::new(String::new()).token(), "");
}

#[test]
fn chat_id_from_integer_and_username() {
    assert_eq!(ChatId::from(-1001234567890i64), ChatId::Id(-1001234567890));
    assert_eq!(
        ChatId::from(String::from("@channel")),
        ChatId::ChannelUsername(String::from("@channel"))
    );
    let converted: ChatId = 7i64.into();
    assert_eq!(converted, ChatId::Id(7));
}

#[test]
fn send_video_note_new_sets_required_and_leaves_optional_unset() {
    let req = note();
    assert_eq!(req.bot.token(), "123456:TOKEN");
    assert_eq!(req.chat_id, ChatId::Id(42));
    assert_eq!(req.video_note, InputFile::FileId(String::from("note-1")));
    assert_eq!(req.duration, None);
    assert_eq!(req.length, None);
    assert_eq!(req.thumb, None);
    assert_eq!(req.disable_notification, None);
    assert_eq!(req.reply_to_message_id, None);
    assert_eq!(req.reply_markup, None);
}

#[test]
fn send_video_note_setters_store_exactly_what_they_are_given() {
    let markup = ReplyMarkup::ReplyKeyboardMarkup(ReplyKeyboardMarkup {
        keyboard: vec![vec![KeyboardButton { text: String::from("yes") }]],
    });
    let req = note()
        .chat_id(ChatId::ChannelUsername(String::from("@news")))
        .video_note(InputFile::File(String::from("/tmp/note.mp4")))
        .duration(59)
        .length(240)
        .thumb(InputFile::Url(String::from("https://example.org/t.jpg")))
        .disable_notification(true)
        .reply_to_message_id(-3)
        .reply_markup(markup.clone());
    assert_eq!(req.bot.token(), "123456:TOKEN");
    assert_eq!(req.chat_id, ChatId::ChannelUsername(String::from("@news")));
    assert_eq!(req.video_note, InputFile::File(String::from("/tmp/note.mp4")));
    assert_eq!(req.duration, Some(59));
    assert_eq!(req.length, Some(240));
    assert_eq!(req.thumb, Some(InputFile::Url(String::from("https://example.org/t.jpg"))));
    assert_eq!(req.disable_notification, Some(true));
    assert_eq!(req.reply_to_message_id, Some(-3));
    assert_eq!(req.reply_markup, Some(markup));
}

#[test]
fn send_video_note_setter_touches_no_other_field() {
    let req = note().duration(i32::MAX);
    assert_eq!(req.duration, Some(i32::MAX));
    assert_eq!(req.chat_id, ChatId::Id(42));
    assert_eq!(req.video_note, InputFile::FileId(String::from("note-1")));
    assert_eq!(req.length, None);
    assert_eq!(req.thumb, None);
    assert_eq!(req.disable_notification, None);
    assert_eq!(req.reply_to_message_id, None);
    assert_eq!(req.reply_markup, None);
}

#[test]
fn setting_a_field_again_keeps_the_last_value() {
    let req = note().duration(1).duration(2).disable_notification(true).disable_notification(false);
    assert_eq!(req.duration, Some(2));
    assert_eq!(req.disable_notification, Some(false));
}

#[test]
fn setters_in_any_order_give_the_same_fields() {
    let a = note()
        .duration(10)
        .length(20)
        .reply_to_message_id(30)
        .disable_notification(false)
        .chat_id(ChatId::Id(5));
    let b = note()
        .chat_id(ChatId::Id(5))
        .disable_notification(false)
        .reply_to_message_id(30)
        .length(20)
        .duration(10);
    let c = note()
        .length(20)
        .chat_id(ChatId::Id(5))
        .duration(10)
        .disable_notification(false)
        .reply_to_message_id(30);
    for other in [&b, &c] {
        assert_eq!(a.chat_id, other.chat_id);
        assert_eq!(a.video_note, other.video_note);
        assert_eq!(a.duration, other.duration);
        assert_eq!(a.length, other.length);
        assert_eq!(a.thumb, other.thumb);
        assert_eq!(a.disable_notification, other.disable_notification);
        assert_eq!(a.reply_to_message_id, other.reply_to_message_id);
        assert_eq!(a.reply_markup, other.reply_markup);
        assert_eq!(a.fields(), other.fields());
    }
}

#[test]
fn unset_optional_fields_are_absent_from_the_serialized_form() {
    let req = note();
    let fields = req.fields();
    assert_eq!(names(&fields), vec!["chat_id", "video_note"]);
    assert_eq!(fields[0].value, FieldValue::Chat(&ChatId::Id(42)));
    assert_eq!(fields[1].value, FieldValue::File(&InputFile::FileId(String::from("note-1"))));
}

#[test]
fn set_optional_fields_appear_with_exactly_their_values() {
    let thumb = InputFile::File(String::from("thumb.jpg"));
    let req = note()
        .duration(0)
        .length(-1)
        .thumb(thumb.clone())
        .disable_notification(false)
        .reply_to_message_id(8)
        .reply_markup(ReplyMarkup::ForceReply);
    let fields = req.fields();
    assert_eq!(
        fields,
        vec![
            Field { name: "chat_id", value: FieldValue::Chat(&ChatId::Id(42)) },
            Field {
                name: "video_note",
                value: FieldValue::File(&InputFile::FileId(String::from("note-1"))),
            },
            Field { name: "duration", value: FieldValue::Integer(0) },
            Field { name: "length", value: FieldValue::Integer(-1) },
            Field { name: "thumb", value: FieldValue::File(&thumb) },
            Field { name: "disable_notification", value: FieldValue::Boolean(false) },
            Field { name: "reply_to_message_id", value: FieldValue::Integer(8) },
            Field { name: "reply_markup", value: FieldValue::Markup(&ReplyMarkup::ForceReply) },
        ]
    );
}

#[test]
fn the_bot_is_never_serialized() {
    let req = note().duration(1).reply_markup(ReplyMarkup::ReplyKeyboardRemove);
    for field in req.fields() {
        assert_ne!(field.name, "bot");
        assert_ne!(field.name, "token");
    }
}

#[test]
fn one_required_and_two_of_three_optional_fields_end_to_end() {
    let req = SendVideoNote::new(
        Bot::new(String::from("999:VIDEO")),
        ChatId::ChannelUsername(String::from("@videos")),
        InputFile::Url(String::from("https://example.org/n.mp4")),
    )
    .duration(12)
    .length(360);
    let call = req.dispatch();
    assert_eq!(call.transport, Transport::Multipart);
    assert_eq!(call.method, "sendVideoNote");
    assert_eq!(call.token, "999:VIDEO");
    assert_eq!(names(&call.fields), vec!["chat_id", "video_note", "duration", "length"]);
    assert_eq!(call.fields[2].value, FieldValue::Integer(12));
    assert_eq!(call.fields[3].value, FieldValue::Integer(360));
    assert!(call.fields.iter().all(|field| field.name != "thumb"));
    assert_eq!(call.transport, SendVideoNote::transport());
    assert_eq!(call.method, SendVideoNote::name());
}

#[test]
fn dispatch_is_what_name_transport_token_and_fields_say() {
    let req = note().thumb(InputFile::FileId(String::from("t")));
    let expected = Dispatch {
        transport: SendVideoNote::transport(),
        method: SendVideoNote::name(),
        token: req.bot().token(),
        fields: req.fields(),
    };
    assert_eq!(req.dispatch(), expected);
}

#[test]
fn edit_inline_message_media_new_and_setters() {
    let req = EditInlineMessageMedia::new(bot(), String::from("inline-1"), photo());
    assert_eq!(req.bot.token(), "123456:TOKEN");
    assert_eq!(req.inline_message_id, "inline-1");
    assert_eq!(req.media, photo());
    assert_eq!(req.reply_markup, None);

    let video = InputMedia {
        kind: InputMediaKind::Video,
        media: InputFile::FileId(String::from("v")),
        caption: None,
    };
    let req =
        req.inline_message_id(String::from("inline-2")).media(video.clone()).reply_markup(keyboard());
    assert_eq!(req.inline_message_id, "inline-2");
    assert_eq!(req.media, video);
    assert_eq!(req.reply_markup, Some(keyboard()));
}

#[test]
fn edit_inline_message_media_setters_commute() {
    let a = EditInlineMessageMedia::new(bot(), String::from("x"), photo())
        .reply_markup(keyboard())
        .inline_message_id(String::from("y"));
    let b = EditInlineMessageMedia::new(bot(), String::from("x"), photo())
        .inline_message_id(String::from("y"))
        .reply_markup(keyboard());
    assert_eq!(a.inline_message_id, b.inline_message_id);
    assert_eq!(a.media, b.media);
    assert_eq!(a.reply_markup, b.reply_markup);
}

#[test]
fn edit_inline_message_media_every_order_of_its_setters() {
    let video = InputMedia {
        kind: InputMediaKind::Video,
        media: InputFile::FileId(String::from("v")),
        caption: None,
    };
    let orders: [[usize; 3]; 6] =
        [[0, 1, 2], [0, 2, 1], [1, 0, 2], [1, 2, 0], [2, 0, 1], [2, 1, 0]];
    for order in orders {
        let mut req = EditInlineMessageMedia::new(bot(), String::from("x"), photo());
        for setter in order {
            req = match setter {
                0 => req.inline_message_id(String::from("y")),
                1 => req.media(video.clone()),
                _ => req.reply_markup(keyboard()),
            };
        }
        assert_eq!(req.bot.token(), "123456:TOKEN");
        assert_eq!(req.inline_message_id, "y");
        assert_eq!(req.media, video);
        assert_eq!(req.reply_markup, Some(keyboard()));
    }
}

#[test]
fn edit_inline_message_media_serialized_form() {
    let req = EditInlineMessageMedia::new(bot(), String::from("inline-1"), photo());
    let id = String::from("inline-1");
    assert_eq!(
        req.fields(),
        vec![
            Field { name: "inline_message_id", value: FieldValue::Text(&id) },
            Field { name: "media", value: FieldValue::Media(&photo()) },
        ]
    );
    let req = req.reply_markup(keyboard());
    let fields = req.fields();
    assert_eq!(fields.len(), 3);
    assert_eq!(
        fields[2],
        Field { name: "reply_markup", value: FieldValue::InlineKeyboard(&keyboard()) }
    );
}

#[test]
fn edit_inline_message_media_dispatch() {
    let req = EditInlineMessageMedia::new(bot(), String::from("inline-1"), photo());
    let call = req.dispatch();
    assert_eq!(call.transport, Transport::Multipart);
    assert_eq!(call.method, "editMessageMedia");
    assert_eq!(call.token, "123456:TOKEN");
    assert_eq!(call.fields, req.fields());
}

#[test]
fn payload_names_are_fixed_and_not_empty() {
    assert_eq!(GetMe::name(), "GetMe");
    assert_eq!(SendVideoNote::name(), "sendVideoNote");
    assert_eq!(EditInlineMessageMedia::name(), "editMessageMedia");
    for _ in 0..3 {
        assert_eq!(GetMe::name(), GetMe::name());
        assert_eq!(SendVideoNote::name(), SendVideoNote::name());
        assert_eq!(EditInlineMessageMedia::name(), EditInlineMessageMedia::name());
    }
    assert!(!GetMe::name().is_empty());
    assert!(!SendVideoNote::name().is_empty());
    assert!(!EditInlineMessageMedia::name().is_empty());
}

#[test]
fn get_me_has_no_parameters() {
    let payload = GetMe::new();
    assert_eq!(payload, GetMe {});
    assert_eq!(payload, GetMe::default());
    assert_eq!(payload.fields(), vec![]);
}

fn carried<S: GetMeSetters>(carrier: &S) -> GetMe {
    *carrier.payload_ref()
}

#[test]
fn get_me_carries_itself() {
    let mut payload = GetMe::new();
    assert_eq!(carried(&payload), GetMe {});
    assert_eq!(*payload.payload_ref(), GetMe {});
    *payload.payload_mut() = GetMe::default();
    assert_eq!(payload, GetMe {});
    assert_eq!(*AsRef::<GetMe>::as_ref(&payload), GetMe {});
    assert_eq!(*AsMut::<GetMe>::as_mut(&mut payload), GetMe {});
}

#[test]
fn a_request_carries_itself_too() {
    let mut req = note().duration(4);
    assert_eq!(req.payload_ref().duration, Some(4));
    req.payload_mut().duration = Some(5);
    assert_eq!(req.duration, Some(5));
}

#[test]
fn cloned_requests_are_independent() {
    let first = note().duration(1);
    let second = first.clone().duration(2).chat_id(ChatId::Id(9));
    assert_eq!(first.duration, Some(1));
    assert_eq!(first.chat_id, ChatId::Id(42));
    assert_eq!(second.duration, Some(2));
    assert_eq!(second.chat_id, ChatId::Id(9));
    assert_eq!(second.video_note, first.video_note);
}
