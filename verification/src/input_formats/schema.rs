//! Reading the members of a JSON object the way a report's schema wants
//! them: required, optional, or with a value that stands in where the member
//! is absent.
//!
//! A member is absent where the object has no member of that name. An
//! optional member is also absent where its value is `null`.

use super::{MalformedInput, MalformedInputModel};
use crate::json::{find_member, find_present, member, members_view, present, Json, JsonTree};
use crate::timestamp::{timestamp_of_text, Timestamp};
use vstd::prelude::*;

verus! {

/// The text of a member that must be there.
pub open spec fn required_text(members: Seq<(Seq<char>, JsonTree)>, key: Seq<char>) -> Result<
    Seq<char>,
    MalformedInputModel,
> {
    match member(members, key) {
        None => Err(MalformedInputModel::MissingField(key)),
        Some(JsonTree::Text(text)) => Ok(text),
        Some(_) => Err(MalformedInputModel::UnexpectedValue(key)),
    }
}

/// The text of a member, or `fallback` where the member is absent.
pub open spec fn text_or(
    members: Seq<(Seq<char>, JsonTree)>,
    key: Seq<char>,
    fallback: Seq<char>,
) -> Result<Seq<char>, MalformedInputModel> {
    match member(members, key) {
        None => Ok(fallback),
        Some(JsonTree::Text(text)) => Ok(text),
        Some(_) => Err(MalformedInputModel::UnexpectedValue(key)),
    }
}

/// The text of a member, or `fallback` where the member is absent or its
/// text is empty.
pub open spec fn nonempty_text_or(
    members: Seq<(Seq<char>, JsonTree)>,
    key: Seq<char>,
    fallback: Seq<char>,
) -> Result<Seq<char>, MalformedInputModel> {
    match text_or(members, key, fallback) {
        Ok(text) => if text.len() == 0 {
            Ok(fallback)
        } else {
            Ok(text)
        },
        Err(fault) => Err(fault),
    }
}

/// The text of an optional member.
pub open spec fn optional_text(members: Seq<(Seq<char>, JsonTree)>, key: Seq<char>) -> Result<
    Option<Seq<char>>,
    MalformedInputModel,
> {
    match present(member(members, key)) {
        None => Ok(None),
        Some(JsonTree::Text(text)) => Ok(Some(text)),
        Some(_) => Err(MalformedInputModel::UnexpectedValue(key)),
    }
}

/// The number of an optional member that holds an unsigned integer of at
/// most 32 bits.
pub open spec fn optional_u32(members: Seq<(Seq<char>, JsonTree)>, key: Seq<char>) -> Result<
    Option<u32>,
    MalformedInputModel,
> {
    match present(member(members, key)) {
        None => Ok(None),
        Some(JsonTree::Number(Some(n))) => if n <= u32::MAX {
            Ok(Some(n as u32))
        } else {
            Err(MalformedInputModel::UnexpectedValue(key))
        },
        Some(_) => Err(MalformedInputModel::UnexpectedValue(key)),
    }
}

/// The time that a member states as a text, or the epoch where the member
/// is absent.
pub open spec fn time_or_epoch(members: Seq<(Seq<char>, JsonTree)>, key: Seq<char>) -> Result<
    Timestamp,
    MalformedInputModel,
> {
    match member(members, key) {
        None => Ok(Timestamp::spec_epoch()),
        Some(JsonTree::Text(text)) => match timestamp_of_text(text) {
            Some(time) => Ok(time),
            None => Err(MalformedInputModel::UnexpectedValue(key)),
        },
        Some(_) => Err(MalformedInputModel::UnexpectedValue(key)),
    }
}

/// Reads the text of a member that must be there.
pub fn read_required_text(members: &Vec<(String, Json)>, key: &str) -> (r: Result<
    String,
    MalformedInput,
>)
    ensures
        match r {
            Ok(text) => required_text(members_view(members@), key@) == Ok::<
                Seq<char>,
                MalformedInputModel,
            >(text@),
            Err(fault) => required_text(members_view(members@), key@) == Err::<
                Seq<char>,
                MalformedInputModel,
            >(fault@),
        },
{
    match find_member(members, key) {
        None => Err(MalformedInput::MissingField(key.to_owned())),
        Some(value) => match value.as_text() {
            Some(text) => Ok(text.clone()),
            None => Err(MalformedInput::UnexpectedValue(key.to_owned())),
        },
    }
}

/// Reads the text of a member, or takes `fallback` where the member is
/// absent.
pub fn read_text_or(members: &Vec<(String, Json)>, key: &str, fallback: &str) -> (r: Result<
    String,
    MalformedInput,
>)
    ensures
        match r {
            Ok(text) => text_or(members_view(members@), key@, fallback@) == Ok::<
                Seq<char>,
                MalformedInputModel,
            >(text@),
            Err(fault) => text_or(members_view(members@), key@, fallback@) == Err::<
                Seq<char>,
                MalformedInputModel,
            >(fault@),
        },
{
    match find_member(members, key) {
        None => Ok(fallback.to_owned()),
        Some(value) => match value.as_text() {
            Some(text) => Ok(text.clone()),
            None => Err(MalformedInput::UnexpectedValue(key.to_owned())),
        },
    }
}

/// Reads the text of a member, or takes `fallback` where the member is
/// absent or its text is empty.
pub fn read_nonempty_text_or(members: &Vec<(String, Json)>, key: &str, fallback: &str) -> (r:
    Result<String, MalformedInput>)
    ensures
        match r {
            Ok(text) => nonempty_text_or(members_view(members@), key@, fallback@) == Ok::<
                Seq<char>,
                MalformedInputModel,
            >(text@),
            Err(fault) => nonempty_text_or(members_view(members@), key@, fallback@) == Err::<
                Seq<char>,
                MalformedInputModel,
            >(fault@),
        },
{
    let text = read_text_or(members, key, fallback)?;
    if text.as_str().is_empty() {
        Ok(fallback.to_owned())
    } else {
        Ok(text)
    }
}

/// Reads the text of an optional member.
pub fn read_optional_text(members: &Vec<(String, Json)>, key: &str) -> (r: Result<
    Option<String>,
    MalformedInput,
>)
    ensures
        match r {
            Ok(Some(text)) => optional_text(members_view(members@), key@) == Ok::<
                Option<Seq<char>>,
                MalformedInputModel,
            >(Some(text@)),
            Ok(None) => optional_text(members_view(members@), key@) == Ok::<
                Option<Seq<char>>,
                MalformedInputModel,
            >(None),
            Err(fault) => optional_text(members_view(members@), key@) == Err::<
                Option<Seq<char>>,
                MalformedInputModel,
            >(fault@),
        },
{
    match find_present(members, key) {
        None => Ok(None),
        Some(value) => match value.as_text() {
            Some(text) => Ok(Some(text.clone())),
            None => Err(MalformedInput::UnexpectedValue(key.to_owned())),
        },
    }
}

/// Reads the number of an optional member.
pub fn read_optional_u32(members: &Vec<(String, Json)>, key: &str) -> (r: Result<
    Option<u32>,
    MalformedInput,
>)
    ensures
        match r {
            Ok(number) => optional_u32(members_view(members@), key@) == Ok::<
                Option<u32>,
                MalformedInputModel,
            >(number),
            Err(fault) => optional_u32(members_view(members@), key@) == Err::<
                Option<u32>,
                MalformedInputModel,
            >(fault@),
        },
{
    match find_present(members, key) {
        None => Ok(None),
        Some(value) => match value.as_unsigned() {
            Some(n) => {
                if n <= 0xffff_ffff {
                    Ok(Some(n as u32))
                } else {
                    Err(MalformedInput::UnexpectedValue(key.to_owned()))
                }
            },
            None => Err(MalformedInput::UnexpectedValue(key.to_owned())),
        },
    }
}

/// Reads the time that a member states, or takes the epoch where the
/// member is absent.
pub fn read_time_or_epoch(members: &Vec<(String, Json)>, key: &str) -> (r: Result<
    Timestamp,
    MalformedInput,
>)
    ensures
        match r {
            Ok(time) => time_or_epoch(members_view(members@), key@) == Ok::<
                Timestamp,
                MalformedInputModel,
            >(time),
            Err(fault) => time_or_epoch(members_view(members@), key@) == Err::<
                Timestamp,
                MalformedInputModel,
            >(fault@),
        },
{
    match find_member(members, key) {
        None => Ok(Timestamp::epoch()),
        Some(value) => match value.as_text() {
            Some(text) => match Timestamp::parse(text.as_str()) {
                Some(time) => Ok(time),
                None => Err(MalformedInput::UnexpectedValue(key.to_owned())),
            },
            None => Err(MalformedInput::UnexpectedValue(key.to_owned())),
        },
    }
}

} // verus!
