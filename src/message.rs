//! Chat-log entries.
use vstd::prelude::*;

use crate::error::{DecodeError, DecodeErrorView, outcome, outcome_view};
use crate::fields::{
    bool_of, decode_entries, defaulted, entries_of, finish, optional, optional_string,
    reject_leftover, required, required_bool, required_string, required_strings, required_usize,
    string_of, string_or_empty, strings_of, strings_or_empty, take, text_of, usize_of,
};
use crate::json::{JsonValue, position_of};
use crate::message_flag::{MessageFlag, MessageFlagView, decode_message_flags, flags_of};
use crate::timestamp::{Timestamp, decode_timestamp, timestamp_of};

verus! {

#[derive(Debug, PartialEq, Eq)]
pub struct UserId(pub String);

#[derive(Debug, PartialEq, Eq)]
pub struct MessageId(pub String);

#[derive(Debug, PartialEq, Eq)]
pub struct SceneId(pub String);

#[derive(Debug, PartialEq, Eq)]
pub struct TokenId(pub String);

#[derive(Debug, PartialEq, Eq)]
pub struct ActorId(pub String);

/// Who a message is spoken as; any part may be absent or `null`.
#[derive(Debug, PartialEq, Eq)]
pub struct Speaker {
    pub scene: Option<SceneId>,
    pub token: Option<TokenId>,
    pub actor: Option<ActorId>,
    pub alias: Option<String>,
}

pub open spec fn speaker_of(v: JsonValue) -> Result<Speaker, DecodeErrorView> {
    match entries_of(v) {
        Err(err) => Err(err),
        Ok(e) => speaker_in(e),
    }
}

pub open spec fn speaker_in(e: Seq<(String, JsonValue)>) -> Result<Speaker, DecodeErrorView> {
            let scene = optional(e, "scene"@, |v: JsonValue| string_of(v));
            let token = optional(e, "token"@, |v: JsonValue| string_of(v));
            let actor = optional(e, "actor"@, |v: JsonValue| string_of(v));
            let alias = optional(e, "alias"@, |v: JsonValue| string_of(v));
            let used = seq![
                position_of(e, "scene"@),
                position_of(e, "token"@),
                position_of(e, "actor"@),
                position_of(e, "alias"@),
            ];
            if scene is Err {
                Err(scene->Err_0)
            } else if token is Err {
                Err(token->Err_0)
            } else if actor is Err {
                Err(actor->Err_0)
            } else if alias is Err {
                Err(alias->Err_0)
            } else {
                finish(e, used, Speaker {
                    scene: match scene->Ok_0 { Some(s) => Some(SceneId(s)), None => None },
                    token: match token->Ok_0 { Some(s) => Some(TokenId(s)), None => None },
                    actor: match actor->Ok_0 { Some(s) => Some(ActorId(s)), None => None },
                    alias: alias->Ok_0,
                })
            }
}

pub fn decode_speaker(v: &JsonValue) -> (r: Result<Speaker, DecodeError>)
    ensures
        outcome(r) == speaker_of(*v),
{
    let e = decode_entries(v)?;
    let mut used: Vec<Option<usize>> = Vec::new();
    let scene = optional_string(e, "scene", &mut used)?;
    let token = optional_string(e, "token", &mut used)?;
    let actor = optional_string(e, "actor", &mut used)?;
    let alias = optional_string(e, "alias", &mut used)?;
    assert(used@ =~= seq![
        position_of(e@, "scene"@),
        position_of(e@, "token"@),
        position_of(e@, "actor"@),
        position_of(e@, "alias"@),
    ]);
    reject_leftover(e, &used)?;
    Ok(Speaker {
        scene: match scene { Some(s) => Some(SceneId(s)), None => None },
        token: match token { Some(s) => Some(TokenId(s)), None => None },
        actor: match actor { Some(s) => Some(ActorId(s)), None => None },
        alias,
    })
}

/// One entry of the chat log.
///
/// Two revisions of the log's schema meet here: older entries may lack
/// `user` and `flavor` and carry a legacy `roll` string, newer ones carry
/// `rolls` instead. Each field takes the least demanding form of the two.
#[derive(Debug, PartialEq, Eq)]
pub struct Message<'a> {
    pub message_type: usize,
    pub user: Option<UserId>,
    pub id: MessageId,
    pub flags: Vec<MessageFlag<'a>>,
    pub timestamp: Timestamp,
    pub flavor: Option<String>,
    pub content: String,
    pub speaker: Speaker,
    pub whisper: Vec<UserId>,
    pub blind: bool,
    pub sound: Option<String>,
    pub emote: bool,
    pub rolls: Vec<String>,
    pub roll: String,
}

pub struct MessageView<'a> {
    pub message_type: usize,
    pub user: Option<UserId>,
    pub id: MessageId,
    pub flags: Seq<MessageFlagView<'a>>,
    pub timestamp: Timestamp,
    pub flavor: Option<String>,
    pub content: String,
    pub speaker: Speaker,
    pub whisper: Seq<UserId>,
    pub blind: bool,
    pub sound: Option<String>,
    pub emote: bool,
    pub rolls: Seq<String>,
    pub roll: Seq<char>,
}

impl<'a> View for Message<'a> {
    type V = MessageView<'a>;

    open spec fn view(&self) -> MessageView<'a> {
        MessageView {
            message_type: self.message_type,
            user: self.user,
            id: self.id,
            flags: self.flags@.map_values(|f: MessageFlag| f@),
            timestamp: self.timestamp,
            flavor: self.flavor,
            content: self.content,
            speaker: self.speaker,
            whisper: self.whisper@,
            blind: self.blind,
            sound: self.sound,
            emote: self.emote,
            rolls: self.rolls@,
            roll: self.roll@,
        }
    }
}

/// The keys of a message, in the order in which its fields are decoded.
pub open spec fn message_used(e: Seq<(String, JsonValue)>) -> Seq<Option<usize>> {
    seq![
        position_of(e, "type"@),
        position_of(e, "user"@),
        position_of(e, "_id"@),
        position_of(e, "flags"@),
        position_of(e, "timestamp"@),
        position_of(e, "flavor"@),
        position_of(e, "content"@),
        position_of(e, "speaker"@),
        position_of(e, "whisper"@),
        position_of(e, "blind"@),
        position_of(e, "sound"@),
        position_of(e, "emote"@),
        position_of(e, "rolls"@),
        position_of(e, "roll"@),
    ]
}

pub open spec fn message_in<'a>(e: Seq<(String, JsonValue)>) -> Result<MessageView<'a>, DecodeErrorView> {
    let message_type = required(e, "type"@, |v: JsonValue| usize_of(v));
    let user = optional(e, "user"@, |v: JsonValue| string_of(v));
    let id = required(e, "_id"@, |v: JsonValue| string_of(v));
    let flags = required(e, "flags"@, |v: JsonValue| flags_of(v));
    let timestamp = required(e, "timestamp"@, |v: JsonValue| timestamp_of(v));
    let flavor = optional(e, "flavor"@, |v: JsonValue| string_of(v));
    let content = required(e, "content"@, |v: JsonValue| string_of(v));
    let speaker = required(e, "speaker"@, |v: JsonValue| speaker_of(v));
    let whisper = required(e, "whisper"@, |v: JsonValue| strings_of(v));
    let blind = required(e, "blind"@, |v: JsonValue| bool_of(v));
    let sound = optional(e, "sound"@, |v: JsonValue| string_of(v));
    let emote = required(e, "emote"@, |v: JsonValue| bool_of(v));
    let rolls = defaulted(e, "rolls"@, |v: JsonValue| strings_of(v), Seq::empty());
    let roll = defaulted(e, "roll"@, |v: JsonValue| text_of(v), Seq::empty());
    if message_type is Err {
        Err(message_type->Err_0)
    } else if user is Err {
        Err(user->Err_0)
    } else if id is Err {
        Err(id->Err_0)
    } else if flags is Err {
        Err(flags->Err_0)
    } else if timestamp is Err {
        Err(timestamp->Err_0)
    } else if flavor is Err {
        Err(flavor->Err_0)
    } else if content is Err {
        Err(content->Err_0)
    } else if speaker is Err {
        Err(speaker->Err_0)
    } else if whisper is Err {
        Err(whisper->Err_0)
    } else if blind is Err {
        Err(blind->Err_0)
    } else if sound is Err {
        Err(sound->Err_0)
    } else if emote is Err {
        Err(emote->Err_0)
    } else if rolls is Err {
        Err(rolls->Err_0)
    } else if roll is Err {
        Err(roll->Err_0)
    } else {
        finish(e, message_used(e), MessageView {
            message_type: message_type->Ok_0,
            user: match user->Ok_0 { Some(s) => Some(UserId(s)), None => None },
            id: MessageId(id->Ok_0),
            flags: flags->Ok_0,
            timestamp: timestamp->Ok_0,
            flavor: flavor->Ok_0,
            content: content->Ok_0,
            speaker: speaker->Ok_0,
            whisper: whisper->Ok_0.map_values(|s: String| UserId(s)),
            blind: blind->Ok_0,
            sound: sound->Ok_0,
            emote: emote->Ok_0,
            rolls: rolls->Ok_0,
            roll: roll->Ok_0,
        })
    }
}

pub open spec fn message_of<'a>(v: JsonValue) -> Result<MessageView<'a>, DecodeErrorView> {
    match entries_of(v) {
        Ok(e) => message_in(e),
        Err(err) => Err(err),
    }
}

fn user_ids(names: Vec<String>) -> (r: Vec<UserId>)
    ensures
        r@ == names@.map_values(|s: String| UserId(s)),
{
    let mut names = names;
    let ghost all = names@;
    let mut out: Vec<UserId> = Vec::new();
    while names.len() > 0
        invariant
            all == out@.map_values(|u: UserId| u.0) + names@,
            forall|j: int| 0 <= j < out@.len() ==> #[trigger] out@[j] == UserId(out@[j].0),
        decreases names.len(),
    {
        let s = names.remove(0);
        out.push(UserId(s));
        assert(all =~= out@.map_values(|u: UserId| u.0) + names@);
    }
    assert(all =~= out@.map_values(|u: UserId| u.0));
    assert(out@ =~= all.map_values(|s: String| UserId(s)));
    out
}

fn decode_flags_field<'a>(e: &'a Vec<(String, JsonValue)>, used: &mut Vec<Option<usize>>) -> (r: Result<Vec<MessageFlag<'a>>, DecodeError>)
    ensures
        final(used)@ == old(used)@.push(position_of(e@, "flags"@)),
        match r {
            Ok(fs) => required(e@, "flags"@, |v: JsonValue| flags_of(v))
                == Ok::<Seq<MessageFlagView>, DecodeErrorView>(fs@.map_values(|f: MessageFlag| f@)),
            Err(err) => required(e@, "flags"@, |v: JsonValue| flags_of(v))
                == Err::<Seq<MessageFlagView>, DecodeErrorView>(err@),
        },
{
    match take(e, "flags", used) {
        None => Err(DecodeError::missing_field("flags")),
        Some(x) => match decode_message_flags(x) {
            Ok(fs) => Ok(fs),
            Err(err) => Err(err.within_key("flags")),
        },
    }
}

fn decode_timestamp_field(e: &Vec<(String, JsonValue)>, used: &mut Vec<Option<usize>>) -> (r: Result<Timestamp, DecodeError>)
    ensures
        final(used)@ == old(used)@.push(position_of(e@, "timestamp"@)),
        outcome(r) == required(e@, "timestamp"@, |v: JsonValue| timestamp_of(v)),
{
    match take(e, "timestamp", used) {
        None => Err(DecodeError::missing_field("timestamp")),
        Some(x) => match decode_timestamp(x) {
            Ok(t) => Ok(t),
            Err(err) => Err(err.within_key("timestamp")),
        },
    }
}

fn decode_speaker_field(e: &Vec<(String, JsonValue)>, used: &mut Vec<Option<usize>>) -> (r: Result<Speaker, DecodeError>)
    ensures
        final(used)@ == old(used)@.push(position_of(e@, "speaker"@)),
        outcome(r) == required(e@, "speaker"@, |v: JsonValue| speaker_of(v)),
{
    match take(e, "speaker", used) {
        None => Err(DecodeError::missing_field("speaker")),
        Some(x) => match decode_speaker(x) {
            Ok(s) => Ok(s),
            Err(err) => Err(err.within_key("speaker")),
        },
    }
}

/// Decodes one chat-log entry.
#[verifier::rlimit(40)]
pub fn decode_message<'a>(v: &'a JsonValue) -> (r: Result<Message<'a>, DecodeError>)
    ensures
        outcome_view(r) == message_of(*v),
{
    let e = decode_entries(v)?;
    let mut used: Vec<Option<usize>> = Vec::new();
    let message_type = required_usize(e, "type", &mut used)?;
    let user = optional_string(e, "user", &mut used)?;
    let id = required_string(e, "_id", &mut used)?;
    let flags = decode_flags_field(e, &mut used)?;
    let timestamp = decode_timestamp_field(e, &mut used)?;
    let flavor = optional_string(e, "flavor", &mut used)?;
    let content = required_string(e, "content", &mut used)?;
    let speaker = decode_speaker_field(e, &mut used)?;
    let whisper = required_strings(e, "whisper", &mut used)?;
    let blind = required_bool(e, "blind", &mut used)?;
    let sound = optional_string(e, "sound", &mut used)?;
    let emote = required_bool(e, "emote", &mut used)?;
    let rolls = strings_or_empty(e, "rolls", &mut used)?;
    let roll = string_or_empty(e, "roll", &mut used)?;
    assert(used@ =~= message_used(e@));
    reject_leftover(e, &used)?;
    let m = Message {
        message_type,
        user: match user { Some(s) => Some(UserId(s)), None => None },
        id: MessageId(id),
        flags,
        timestamp,
        flavor,
        content,
        speaker,
        whisper: user_ids(whisper),
        blind,
        sound,
        emote,
        rolls,
        roll,
    };
    Ok(m)
}

} // verus!
