use vstd::prelude::*;

use crate::types::{ChatId, InlineKeyboardMarkup, InputFile, InputMedia, ReplyMarkup};

verus! {

/// How the body of a call is encoded.
#[derive(Debug, Clone, Copy, PartialEq, Eq, Structural)]
pub enum Transport {
    /// A JSON document.
    Json,
    /// A `multipart/form-data` upload; the only encoding that can carry files.
    Multipart,
}

/// The value of one serialized field, borrowed from the request it belongs to.
#[derive(Debug, Clone, Copy, PartialEq, Eq)]
pub enum FieldValue<'a> {
    Boolean(bool),
    Integer(i32),
    Text(&'a String),
    Chat(&'a ChatId),
    File(&'a InputFile),
    Media(&'a InputMedia),
    InlineKeyboard(&'a InlineKeyboardMarkup),
    Markup(&'a ReplyMarkup),
}

/// One entry of a request's serialized form.
#[derive(Debug, Clone, Copy, PartialEq, Eq)]
pub struct Field<'a> {
    pub name: &'static str,
    pub value: FieldValue<'a>,
}

/// The entry a field that is always present contributes.
pub open spec fn required<'a>(name: &'static str, value: FieldValue<'a>) -> Seq<Field<'a>> {
    seq![Field { name, value }]
}

/// The entries an optional field contributes: one when it is set, none when it is not.
pub open spec fn optional<'a>(name: &'static str, value: Option<FieldValue<'a>>) -> Seq<Field<'a>> {
    match value {
        Some(value) => seq![Field { name, value }],
        None => seq![],
    }
}

impl<'a> FieldValue<'a> {
    /// What an optional integer field holds.
    pub open spec fn integer(val: Option<i32>) -> Option<FieldValue<'a>> {
        match val {
            Some(val) => Some(FieldValue::Integer(val)),
            None => None,
        }
    }

    /// What an optional boolean field holds.
    pub open spec fn boolean(val: Option<bool>) -> Option<FieldValue<'a>> {
        match val {
            Some(val) => Some(FieldValue::Boolean(val)),
            None => None,
        }
    }

    /// What an optional file field holds.
    pub open spec fn file(val: Option<InputFile>) -> Option<FieldValue<'a>> {
        match val {
            Some(val) => Some(FieldValue::File(&val)),
            None => None,
        }
    }

    /// What an optional inline keyboard field holds.
    pub open spec fn inline_keyboard(val: Option<InlineKeyboardMarkup>) -> Option<FieldValue<'a>> {
        match val {
            Some(val) => Some(FieldValue::InlineKeyboard(&val)),
            None => None,
        }
    }

    /// What an optional markup field holds.
    pub open spec fn markup(val: Option<ReplyMarkup>) -> Option<FieldValue<'a>> {
        match val {
            Some(val) => Some(FieldValue::Markup(&val)),
            None => None,
        }
    }
}

/// The names of `fields`, in order.
pub open spec fn names(fields: Seq<Field<'_>>) -> Seq<Seq<char>> {
    Seq::new(fields.len(), |i: int| fields[i].name@)
}

/// The value under which `name` first appears in `fields`.
pub open spec fn value_of<'a>(fields: Seq<Field<'a>>, name: Seq<char>) -> Option<FieldValue<'a>>
    decreases fields.len(),
{
    if fields.len() == 0 {
        None
    } else if fields[0].name@ == name {
        Some(fields[0].value)
    } else {
        value_of(fields.drop_first(), name)
    }
}

/// `value_of` finds a name exactly when the name is among the fields.
pub proof fn lemma_value_of_is_some(fields: Seq<Field<'_>>, name: Seq<char>)
    ensures
        value_of(fields, name) is Some <==> names(fields).contains(name),
    decreases fields.len(),
{
    if fields.len() == 0 {
    } else if fields[0].name@ == name {
        assert(names(fields)[0] == name);
    } else {
        let rest = fields.drop_first();
        lemma_value_of_is_some(rest, name);
        if names(rest).contains(name) {
            let i = names(rest).index_of(name);
            assert(names(fields)[i + 1] == name);
        }
        if names(fields).contains(name) {
            let i = names(fields).index_of(name);
            assert(names(rest)[i - 1] == name);
        }
    }
}

/// What an optional field contributes is found under its name, and only there.
pub proof fn lemma_value_of_optional<'a>(name: &'static str, value: Option<FieldValue<'a>>)
    ensures
        names(optional(name, value)).no_duplicates(),
        forall|other: Seq<char>| #[trigger]
            value_of(optional(name, value), other) == if other == name@ {
                value
            } else {
                None
            },
{
    reveal_with_fuel(value_of, 2);
}

/// What a required field contributes is found under its name, and only there.
pub proof fn lemma_value_of_required<'a>(name: &'static str, value: FieldValue<'a>)
    ensures
        names(required(name, value)).no_duplicates(),
        forall|other: Seq<char>| #[trigger]
            value_of(required(name, value), other) == if other == name@ {
                Some(value)
            } else {
                None
            },
{
    reveal_with_fuel(value_of, 2);
}

/// Looking a name up in a concatenation: the first part is searched first.
pub proof fn lemma_value_of_concat<'a>(front: Seq<Field<'a>>, back: Seq<Field<'a>>)
    ensures
        forall|name: Seq<char>| #[trigger]
            value_of(front + back, name) == if value_of(front, name) is Some {
                value_of(front, name)
            } else {
                value_of(back, name)
            },
    decreases front.len(),
{
    if front.len() == 0 {
        assert(front + back =~= back);
    } else {
        lemma_value_of_concat(front.drop_first(), back);
        assert((front + back).drop_first() =~= front.drop_first() + back);
        assert forall|name: Seq<char>| #[trigger]
            value_of(front + back, name) == if value_of(front, name) is Some {
                value_of(front, name)
            } else {
                value_of(back, name)
            } by {
            assert((front + back)[0] == front[0]);
            assert(value_of(front.drop_first() + back, name) == if value_of(
                front.drop_first(),
                name,
            ) is Some {
                value_of(front.drop_first(), name)
            } else {
                value_of(back, name)
            });
        }
    }
}

/// Appending a field under a fresh name keeps the names free of duplicates.
pub proof fn lemma_names_append<'a>(
    front: Seq<Field<'a>>,
    name: &'static str,
    value: Option<FieldValue<'a>>,
)
    requires
        names(front).no_duplicates(),
        value_of(front, name@) is None,
    ensures
        names(front + optional(name, value)).no_duplicates(),
{
    let back = optional(name, value);
    let all = names(front + back);
    lemma_value_of_is_some(front, name@);
    assert forall|i: int, j: int| 0 <= i < all.len() && 0 <= j < all.len() && i != j implies all[i]
        != all[j] by {
        if i < front.len() && j < front.len() {
            assert(names(front)[i] != names(front)[j]);
        } else if i < front.len() {
            assert(names(front)[i] == all[i]);
        } else {
            assert(names(front)[j] == all[j]);
        }
    }
}

/// Everything the transport needs to perform one call.
#[derive(Debug, Clone, PartialEq, Eq)]
pub struct Dispatch<'a> {
    /// How the body is encoded.
    pub transport: Transport,
    /// The API method, the last segment of the endpoint's path.
    pub method: &'static str,
    /// The token of the bot that makes the call.
    pub token: &'a str,
    /// The body, field by field.
    pub fields: Vec<Field<'a>>,
}

} // verus!
