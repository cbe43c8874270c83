//! Properties that hold of the decoders for every input.
use vstd::prelude::*;

use crate::error::{DecodeError, DecodeErrorView, ErrorKindView, StepView, fault, outcome, outcome_view, within};
use crate::fields::{
    alias_position, bool_of, consumed, leftover, lemma_all_of_err, lemma_all_of_ok_each,
    lemma_leftover_push, lemma_position_of_push, optional, raw_field, required, stray, string_of,
    u64_of,
};
use crate::item::{
    Item, ItemData, ItemDescription, ItemId, item_activation_of, item_data_in, item_data_used,
    item_description_in, item_description_of, item_id_in, item_in, item_of, item_used, rarity_of,
    sentinel_ability_of,
};
use crate::json::{
    JsonValue, key_at, lemma_least, lemma_least_exists, lemma_position_of, lemma_position_of_either,
    lemma_position_of_either_at, names_either, position_of, position_of_either,
};
use crate::message::{Message, MessageView, Speaker, UserId, message_in, message_of, message_used, speaker_in};
use crate::message_flag::{
    Ability, CoreFlagView, Dnd5eFlag, MessageFlagView, MonksLittleDetailsFlag, PolyglotFlag, RollType,
    SaveType, Skill, ability_code, ability_for, attack_roll_in, core_flag_in, dnd5e_of, flag_entry,
    flags_in, flags_of, namespace_of, polyglot_flag_in, repeated_key, roll_type_in, roll_type_of,
    roll_variant_in, save_type_code, save_type_for, skill_code, skill_for,
};

verus! {

/// Decoding depends on the value alone: two decodes of one message give the
/// same message, or the same failure.
pub proof fn message_decoding_is_deterministic(
    v: JsonValue,
    r1: Result<Message, DecodeError>,
    r2: Result<Message, DecodeError>,
)
    requires
        outcome_view(r1) == message_of(v),
        outcome_view(r2) == message_of(v),
    ensures
        outcome_view(r1) == outcome_view(r2),
{
}

/// Decoding depends on the value alone: two decodes of one item give the
/// same item, or the same failure.
pub proof fn item_decoding_is_deterministic(v: JsonValue, r1: Result<Item, DecodeError>, r2: Result<Item, DecodeError>)
    requires
        outcome(r1) == item_of(v),
        outcome(r2) == item_of(v),
    ensures
        outcome(r1) == outcome(r2),
{
}

/// Whether `k` is one of the keys of a message.
pub open spec fn message_key(k: Seq<char>) -> bool {
    k == "type"@ || k == "user"@ || k == "_id"@ || k == "flags"@ || k == "timestamp"@ || k == "flavor"@
        || k == "content"@ || k == "speaker"@ || k == "whisper"@ || k == "blind"@ || k == "sound"@
        || k == "emote"@ || k == "rolls"@ || k == "roll"@
}

/// Strictness of messages: a message that decodes fails, once a key that a
/// message does not name is added to it, with that key as an unknown field.
pub proof fn message_rejects_unknown_key(e: Seq<(String, JsonValue)>, entry: (String, JsonValue))
    requires
        message_in(e) is Ok,
        !message_key(entry.0@),
        e.len() < usize::MAX,
    ensures
        message_in(e.push(entry)) == Err::<crate::message::MessageView, DecodeErrorView>(
            fault(ErrorKindView::UnknownField { key: entry.0@ }),
        ),
{
    lemma_position_of_push(e, "type"@, entry);
    lemma_position_of_push(e, "user"@, entry);
    lemma_position_of_push(e, "_id"@, entry);
    lemma_position_of_push(e, "flags"@, entry);
    lemma_position_of_push(e, "timestamp"@, entry);
    lemma_position_of_push(e, "flavor"@, entry);
    lemma_position_of_push(e, "content"@, entry);
    lemma_position_of_push(e, "speaker"@, entry);
    lemma_position_of_push(e, "whisper"@, entry);
    lemma_position_of_push(e, "blind"@, entry);
    lemma_position_of_push(e, "sound"@, entry);
    lemma_position_of_push(e, "emote"@, entry);
    lemma_position_of_push(e, "rolls"@, entry);
    lemma_position_of_push(e, "roll"@, entry);
    let used = message_used(e);
    assert(message_used(e.push(entry)) == used);
    assert forall|k: int| 0 <= k < used.len() implies (#[trigger] used[k] matches Some(x) ==> x < e.len()) by {
    }
    lemma_leftover_push(e, used, entry);
}

/// Whether `k` is one of the keys of a speaker.
pub open spec fn speaker_key(k: Seq<char>) -> bool {
    k == "scene"@ || k == "token"@ || k == "actor"@ || k == "alias"@
}

/// Strictness of speakers: a speaker that decodes fails, once a key that a
/// speaker does not name is added to it, with that key as an unknown field.
pub proof fn speaker_rejects_unknown_key(e: Seq<(String, JsonValue)>, entry: (String, JsonValue))
    requires
        speaker_in(e) is Ok,
        !speaker_key(entry.0@),
        e.len() < usize::MAX,
    ensures
        speaker_in(e.push(entry)) == Err::<Speaker, DecodeErrorView>(fault(ErrorKindView::UnknownField { key: entry.0@ })),
{
    lemma_position_of_push(e, "scene"@, entry);
    lemma_position_of_push(e, "token"@, entry);
    lemma_position_of_push(e, "actor"@, entry);
    lemma_position_of_push(e, "alias"@, entry);
    let used = seq![
        position_of(e, "scene"@),
        position_of(e, "token"@),
        position_of(e, "actor"@),
        position_of(e, "alias"@),
    ];
    assert forall|k: int| 0 <= k < used.len() implies (#[trigger] used[k] matches Some(x) ==> x < e.len()) by {
    }
    lemma_leftover_push(e, used, entry);
}

/// Whether `k` is a key that some kind of roll names.
pub open spec fn roll_key(k: Seq<char>) -> bool {
    k == "type"@ || k == "abilityId"@ || k == "skillId"@ || k == "_id"@ || k == "itemId"@ || k == "versatile"@
}

/// Strictness of roll payloads: a roll that decodes fails, once a key that no
/// roll names is added to it, with that key as an unknown field.
pub proof fn roll_rejects_unknown_key(e: Seq<(String, JsonValue)>, entry: (String, JsonValue))
    requires
        roll_type_in(e) is Ok,
        !roll_key(entry.0@),
        e.len() < usize::MAX,
    ensures
        roll_type_in(e.push(entry)) == Err::<RollType, DecodeErrorView>(fault(ErrorKindView::UnknownField { key: entry.0@ })),
{
    lemma_position_of_push(e, "type"@, entry);
    lemma_position_of_push(e, "abilityId"@, entry);
    lemma_position_of_push(e, "skillId"@, entry);
    lemma_position_of_push(e, "_id"@, entry);
    lemma_position_of_push(e, "itemId"@, entry);
    lemma_position_of_push(e, "versatile"@, entry);
    let tag = position_of(e, "type"@);
    let item = alias_position(e, "_id"@, "itemId"@);
    let t = e[tag->Some_0 as int].1->Str_0@;
    let used = if t == "save"@ || t == "ability"@ {
        seq![tag, position_of(e, "abilityId"@)]
    } else if t == "skill"@ {
        seq![tag, position_of(e, "skillId"@)]
    } else if t == "attack"@ {
        seq![tag, item]
    } else if t == "damage"@ {
        seq![tag, item, position_of(e, "versatile"@)]
    } else {
        seq![tag]
    };
    assert forall|k: int| 0 <= k < used.len() implies (#[trigger] used[k] matches Some(x) ==> x < e.len()) by {
    }
    lemma_leftover_push(e, used, entry);
}

/// Strictness of the core namespace: a core flag that decodes fails, once a
/// key that it does not name is added, with that key as an unknown field.
pub proof fn core_flag_rejects_unknown_key(e: Seq<(String, JsonValue)>, entry: (String, JsonValue))
    requires
        core_flag_in(e) is Ok,
        entry.0@ != "canPopout"@ && entry.0@ != "initiativeRoll"@ && entry.0@ != "RollTable"@,
        e.len() < usize::MAX,
    ensures
        core_flag_in(e.push(entry)) == Err::<CoreFlagView, DecodeErrorView>(fault(ErrorKindView::UnknownField { key: entry.0@ })),
{
    lemma_position_of_push(e, "canPopout"@, entry);
    lemma_position_of_push(e, "initiativeRoll"@, entry);
    lemma_position_of_push(e, "RollTable"@, entry);
    let used = seq![position_of(e, "canPopout"@), position_of(e, "initiativeRoll"@), position_of(e, "RollTable"@)];
    assert forall|k: int| 0 <= k < used.len() implies (#[trigger] used[k] matches Some(x) ==> x < e.len()) by {
    }
    lemma_leftover_push(e, used, entry);
}

/// Strictness of the polyglot namespace: a polyglot flag that decodes fails,
/// once a key other than `language` is added, with that key as an unknown field.
pub proof fn polyglot_flag_rejects_unknown_key(e: Seq<(String, JsonValue)>, entry: (String, JsonValue))
    requires
        polyglot_flag_in(e) is Ok,
        entry.0@ != "language"@,
        e.len() < usize::MAX,
    ensures
        polyglot_flag_in(e.push(entry)) == Err::<PolyglotFlag, DecodeErrorView>(fault(ErrorKindView::UnknownField { key: entry.0@ })),
{
    lemma_position_of_push(e, "language"@, entry);
    let used = seq![position_of(e, "language"@)];
    assert forall|k: int| 0 <= k < used.len() implies (#[trigger] used[k] matches Some(x) ==> x < e.len()) by {
    }
    lemma_leftover_push(e, used, entry);
}

/// Strictness of item descriptions: a description that decodes fails, once a
/// key that it does not name is added, with that key as an unknown field.
pub proof fn item_description_rejects_unknown_key(e: Seq<(String, JsonValue)>, entry: (String, JsonValue))
    requires
        item_description_in(e) is Ok,
        entry.0@ != "value"@ && entry.0@ != "chat"@ && entry.0@ != "unidentified"@,
        e.len() < usize::MAX,
    ensures
        item_description_in(e.push(entry)) == Err::<ItemDescription, DecodeErrorView>(
            fault(ErrorKindView::UnknownField { key: entry.0@ }),
        ),
{
    lemma_position_of_push(e, "value"@, entry);
    lemma_position_of_push(e, "chat"@, entry);
    lemma_position_of_push(e, "unidentified"@, entry);
    let used = seq![position_of(e, "value"@), position_of(e, "chat"@), position_of(e, "unidentified"@)];
    assert forall|k: int| 0 <= k < used.len() implies (#[trigger] used[k] matches Some(x) ==> x < e.len()) by {
    }
    lemma_leftover_push(e, used, entry);
}

/// Strictness of identifier objects: an identifier object that decodes fails,
/// once a key other than `_id` and `itemId` is added, with that key as an
/// unknown field.
pub proof fn item_id_rejects_unknown_key(e: Seq<(String, JsonValue)>, entry: (String, JsonValue))
    requires
        item_id_in(e) is Ok,
        entry.0@ != "_id"@ && entry.0@ != "itemId"@,
        e.len() < usize::MAX,
    ensures
        item_id_in(e.push(entry)) == Err::<ItemId, DecodeErrorView>(fault(ErrorKindView::UnknownField { key: entry.0@ })),
{
    lemma_position_of_push(e, "_id"@, entry);
    lemma_position_of_push(e, "itemId"@, entry);
    let used = seq![alias_position(e, "_id"@, "itemId"@)];
    assert forall|k: int| 0 <= k < used.len() implies (#[trigger] used[k] matches Some(x) ==> x < e.len()) by {
    }
    lemma_leftover_push(e, used, entry);
}

/// Strictness of items: an item that decodes fails, once a key that an item
/// does not name is added to it, with that key as an unknown field.
pub proof fn item_rejects_unknown_key(e: Seq<(String, JsonValue)>, entry: (String, JsonValue))
    requires
        item_in(e) is Ok,
        entry.0@ != "_id"@ && entry.0@ != "itemId"@ && entry.0@ != "name"@ && entry.0@ != "type"@ && entry.0@ != "data"@ && entry.0@ != "img"@ && entry.0@ != "folder"@ && entry.0@ != "effects"@ && entry.0@ != "sort"@ && entry.0@ != "permission"@ && entry.0@ != "flags"@,
        e.len() < usize::MAX,
    ensures
        item_in(e.push(entry)) == Err::<Item, DecodeErrorView>(fault(ErrorKindView::UnknownField { key: entry.0@ })),
{
    lemma_position_of_push(e, "_id"@, entry);
    lemma_position_of_push(e, "itemId"@, entry);
    lemma_position_of_push(e, "name"@, entry);
    lemma_position_of_push(e, "type"@, entry);
    lemma_position_of_push(e, "data"@, entry);
    lemma_position_of_push(e, "img"@, entry);
    lemma_position_of_push(e, "folder"@, entry);
    lemma_position_of_push(e, "effects"@, entry);
    lemma_position_of_push(e, "sort"@, entry);
    lemma_position_of_push(e, "permission"@, entry);
    lemma_position_of_push(e, "flags"@, entry);
    let used = item_used(e);
    assert(item_used(e.push(entry)) == used);
    assert forall|k: int| 0 <= k < used.len() implies (#[trigger] used[k] matches Some(x) ==> x < e.len()) by {
    }
    lemma_leftover_push(e, used, entry);
}

/// Whether `k` is one of the keys of an item's data.
pub open spec fn item_data_key(k: Seq<char>) -> bool {
    k == "description"@
        || k == "source"@
        || k == "quantity"@
        || k == "weight"@
        || k == "price"@
        || k == "attunement"@
        || k == "equipped"@
        || k == "rarity"@
        || k == "identified"@
        || k == "ability"@
        || k == "actionType"@
        || k == "attackBonus"@
        || k == "chatFlavor"@
        || k == "activation"@
        || k == "formula"@
        || k == "consumableType"@
        || k == "duration"@
        || k == "target"@
        || k == "range"@
        || k == "uses"@
        || k == "consume"@
        || k == "critical"@
        || k == "damage"@
        || k == "save"@
        || k == "attributes"@
        || k == "consumes"@
        || k == "charges"@
        || k == "autoUse"@
        || k == "autoDestroy"@
}

/// Strictness of item data: data that decodes fails, once a key that item
/// data does not name is added to it, with that key as an unknown field.
#[verifier::rlimit(100)]
pub proof fn item_data_rejects_unknown_key(e: Seq<(String, JsonValue)>, entry: (String, JsonValue))
    requires
        item_data_in(e) is Ok,
        !item_data_key(entry.0@),
        e.len() < usize::MAX,
    ensures
        item_data_in(e.push(entry)) == Err::<ItemData, DecodeErrorView>(fault(ErrorKindView::UnknownField { key: entry.0@ })),
{
    lemma_position_of_push(e, "description"@, entry);
    lemma_position_of_push(e, "source"@, entry);
    lemma_position_of_push(e, "quantity"@, entry);
    lemma_position_of_push(e, "weight"@, entry);
    lemma_position_of_push(e, "price"@, entry);
    lemma_position_of_push(e, "attunement"@, entry);
    lemma_position_of_push(e, "equipped"@, entry);
    lemma_position_of_push(e, "rarity"@, entry);
    lemma_position_of_push(e, "identified"@, entry);
    lemma_position_of_push(e, "ability"@, entry);
    lemma_position_of_push(e, "actionType"@, entry);
    lemma_position_of_push(e, "attackBonus"@, entry);
    lemma_position_of_push(e, "chatFlavor"@, entry);
    lemma_position_of_push(e, "activation"@, entry);
    lemma_position_of_push(e, "formula"@, entry);
    lemma_position_of_push(e, "consumableType"@, entry);
    lemma_position_of_push(e, "duration"@, entry);
    lemma_position_of_push(e, "target"@, entry);
    lemma_position_of_push(e, "range"@, entry);
    lemma_position_of_push(e, "uses"@, entry);
    lemma_position_of_push(e, "consume"@, entry);
    lemma_position_of_push(e, "critical"@, entry);
    lemma_position_of_push(e, "damage"@, entry);
    lemma_position_of_push(e, "save"@, entry);
    lemma_position_of_push(e, "attributes"@, entry);
    lemma_position_of_push(e, "consumes"@, entry);
    lemma_position_of_push(e, "charges"@, entry);
    lemma_position_of_push(e, "autoUse"@, entry);
    lemma_position_of_push(e, "autoDestroy"@, entry);
    let f = e.push(entry);
    assert(required(f, "description"@, |v: JsonValue| item_description_of(v)) == required(e, "description"@, |v: JsonValue| item_description_of(v)));
    assert(required(f, "source"@, |v: JsonValue| string_of(v)) == required(e, "source"@, |v: JsonValue| string_of(v)));
    assert(required(f, "quantity"@, |v: JsonValue| u64_of(v)) == required(e, "quantity"@, |v: JsonValue| u64_of(v)));
    assert(required(f, "weight"@, |v: JsonValue| u64_of(v)) == required(e, "weight"@, |v: JsonValue| u64_of(v)));
    assert(optional(f, "price"@, |v: JsonValue| u64_of(v)) == optional(e, "price"@, |v: JsonValue| u64_of(v)));
    assert(required(f, "attunement"@, |v: JsonValue| u64_of(v)) == required(e, "attunement"@, |v: JsonValue| u64_of(v)));
    assert(required(f, "equipped"@, |v: JsonValue| bool_of(v)) == required(e, "equipped"@, |v: JsonValue| bool_of(v)));
    assert(required(f, "rarity"@, |v: JsonValue| rarity_of(v)) == required(e, "rarity"@, |v: JsonValue| rarity_of(v)));
    assert(required(f, "identified"@, |v: JsonValue| bool_of(v)) == required(e, "identified"@, |v: JsonValue| bool_of(v)));
    assert(required(f, "ability"@, |v: JsonValue| sentinel_ability_of(v)) == required(e, "ability"@, |v: JsonValue| sentinel_ability_of(v)));
    assert(required(f, "actionType"@, |v: JsonValue| string_of(v)) == required(e, "actionType"@, |v: JsonValue| string_of(v)));
    assert(required(f, "attackBonus"@, |v: JsonValue| u64_of(v)) == required(e, "attackBonus"@, |v: JsonValue| u64_of(v)));
    assert(required(f, "chatFlavor"@, |v: JsonValue| string_of(v)) == required(e, "chatFlavor"@, |v: JsonValue| string_of(v)));
    assert(optional(f, "activation"@, |v: JsonValue| item_activation_of(v)) == optional(e, "activation"@, |v: JsonValue| item_activation_of(v)));
    assert(optional(f, "formula"@, |v: JsonValue| string_of(v)) == optional(e, "formula"@, |v: JsonValue| string_of(v)));
    assert(optional(f, "consumableType"@, |v: JsonValue| string_of(v)) == optional(e, "consumableType"@, |v: JsonValue| string_of(v)));
    assert(raw_field::<'static>(f, "duration"@) == raw_field::<'static>(e, "duration"@));
    assert(raw_field::<'static>(f, "target"@) == raw_field::<'static>(e, "target"@));
    assert(raw_field::<'static>(f, "range"@) == raw_field::<'static>(e, "range"@));
    assert(raw_field::<'static>(f, "uses"@) == raw_field::<'static>(e, "uses"@));
    assert(raw_field::<'static>(f, "consume"@) == raw_field::<'static>(e, "consume"@));
    assert(raw_field::<'static>(f, "critical"@) == raw_field::<'static>(e, "critical"@));
    assert(raw_field::<'static>(f, "damage"@) == raw_field::<'static>(e, "damage"@));
    assert(raw_field::<'static>(f, "save"@) == raw_field::<'static>(e, "save"@));
    assert(raw_field::<'static>(f, "attributes"@) == raw_field::<'static>(e, "attributes"@));
    assert(raw_field::<'static>(f, "consumes"@) == raw_field::<'static>(e, "consumes"@));
    assert(raw_field::<'static>(f, "charges"@) == raw_field::<'static>(e, "charges"@));
    assert(raw_field::<'static>(f, "autoUse"@) == raw_field::<'static>(e, "autoUse"@));
    assert(raw_field::<'static>(f, "autoDestroy"@) == raw_field::<'static>(e, "autoDestroy"@));
    let used = item_data_used(e);
    assert(item_data_used(e.push(entry)) == used);
    assert forall|k: int| 0 <= k < used.len() implies (#[trigger] used[k] matches Some(x) ==> x < e.len()) by {
    }
    lemma_leftover_push(e, used, entry);
}

/// The entries `e` with the value at `i` replaced by `w`.
pub open spec fn with_value(e: Seq<(String, JsonValue)>, i: int, w: JsonValue) -> Seq<(String, JsonValue)> {
    e.update(i, (e[i].0, w))
}

/// Replacing a value leaves every key where it was.
pub proof fn lemma_position_of_with_value(e: Seq<(String, JsonValue)>, i: int, w: JsonValue, key: Seq<char>)
    requires
        0 <= i < e.len(),
        e.len() <= usize::MAX,
    ensures
        position_of(with_value(e, i, w), key) == position_of(e, key),
{
    let f = with_value(e, i, w);
    assert forall|j: int| #[trigger] crate::json::key_at(f, key, j) == crate::json::key_at(e, key, j) by {
    }
    assert((|j: int| crate::json::key_at(f, key, j)) =~= (|j: int| crate::json::key_at(e, key, j)));
    if exists|j: int| crate::json::key_at(e, key, j) {
        let j = choose|j: int| crate::json::key_at(e, key, j);
        assert(crate::json::key_at(f, key, j));
    } else {
        assert(!exists|j: int| crate::json::key_at(f, key, j)) by {
            if exists|j: int| crate::json::key_at(f, key, j) {
                let j = choose|j: int| crate::json::key_at(f, key, j);
                assert(crate::json::key_at(e, key, j));
            }
        }
    }
}

/// Strictness one level down: in a message that decodes, adding a key that a
/// speaker does not name to its speaker makes the message fail, at `speaker`,
/// with that key as an unknown field.
pub proof fn message_rejects_unknown_speaker_key(
    e: Seq<(String, JsonValue)>,
    w: JsonValue,
    entry: (String, JsonValue),
)
    requires
        message_in(e) is Ok,
        position_of(e, "speaker"@) is Some,
        e[position_of(e, "speaker"@)->Some_0 as int].1 is Object,
        w is Object,
        w->Object_0@ == e[position_of(e, "speaker"@)->Some_0 as int].1->Object_0@.push(entry),
        !speaker_key(entry.0@),
        e.len() < usize::MAX,
    ensures
        message_in(with_value(e, position_of(e, "speaker"@)->Some_0 as int, w))
            == Err::<MessageView, DecodeErrorView>(
            within(StepView::Key("speaker"@), fault(ErrorKindView::UnknownField { key: entry.0@ })),
        ),
{
    let i = position_of(e, "speaker"@)->Some_0 as int;
    lemma_position_of(e, "speaker"@);
    let s = e[i].1->Object_0@;
    let wv = w->Object_0;
    vstd::std_specs::vec::axiom_spec_len(&wv);
    assert(s.len() < usize::MAX);
    speaker_rejects_unknown_key(s, entry);
    let f = with_value(e, i, w);
    lemma_position_of_with_value(e, i, w, "type"@);
    lemma_position_of_with_value(e, i, w, "user"@);
    lemma_position_of_with_value(e, i, w, "_id"@);
    lemma_position_of_with_value(e, i, w, "flags"@);
    lemma_position_of_with_value(e, i, w, "timestamp"@);
    lemma_position_of_with_value(e, i, w, "flavor"@);
    lemma_position_of_with_value(e, i, w, "content"@);
    lemma_position_of_with_value(e, i, w, "speaker"@);
    lemma_position_of(e, "type"@);
    lemma_position_of(e, "user"@);
    lemma_position_of(e, "_id"@);
    lemma_position_of(e, "flags"@);
    lemma_position_of(e, "timestamp"@);
    lemma_position_of(e, "flavor"@);
    lemma_position_of(e, "content"@);
    reveal_strlit("speaker");
    reveal_strlit("type");
    reveal_strlit("user");
    reveal_strlit("_id");
    reveal_strlit("flags");
    reveal_strlit("timestamp");
    reveal_strlit("flavor");
    reveal_strlit("content");
    assert("speaker"@.len() == 7);
    assert("type"@.len() == 4);
    assert("user"@.len() == 4);
    assert("_id"@.len() == 3);
    assert("flags"@.len() == 5);
    assert("timestamp"@.len() == 9);
    assert("flavor"@.len() == 6);
    assert("content"@.len() == 7);
    assert(f[i].1 == w);
}

/// The entries `e` with the entry at `i` written under key `k` instead.
pub open spec fn renamed(e: Seq<(String, JsonValue)>, i: int, k: String) -> Seq<(String, JsonValue)> {
    e.update(i, (k, e[i].1))
}

proof fn lemma_position_of_renamed(e: Seq<(String, JsonValue)>, i: int, k: String, key: Seq<char>)
    requires
        0 <= i < e.len() <= usize::MAX,
        e[i].0@ != key,
        k@ != key,
    ensures
        position_of(renamed(e, i, k), key) == position_of(e, key),
{
    let f = renamed(e, i, k);
    assert forall|j: int| #[trigger] key_at(f, key, j) == key_at(e, key, j) by {
    }
    assert((|j: int| key_at(f, key, j)) =~= (|j: int| key_at(e, key, j)));
    if exists|j: int| key_at(e, key, j) {
        let j = choose|j: int| key_at(e, key, j);
        assert(key_at(f, key, j));
    } else {
        assert(!exists|j: int| key_at(f, key, j)) by {
            if exists|j: int| key_at(f, key, j) {
                let j = choose|j: int| key_at(f, key, j);
                assert(key_at(e, key, j));
            }
        }
    }
}

/// Where the entry at `i` is the only one under `key`, `key` is found there.
proof fn lemma_position_of_only(e: Seq<(String, JsonValue)>, i: int, key: Seq<char>)
    requires
        0 <= i < e.len() <= usize::MAX,
        e[i].0@ == key,
        forall|j: int| 0 <= j < e.len() && j != i ==> e[j].0@ != key,
    ensures
        position_of(e, key) == Some(i as usize),
{
    assert(key_at(e, key, i));
    lemma_least(|j: int| key_at(e, key, j), i);
}

/// Where no entry is under `key`, `key` is not found.
proof fn lemma_position_of_none(e: Seq<(String, JsonValue)>, key: Seq<char>)
    requires
        forall|j: int| 0 <= j < e.len() ==> e[j].0@ != key,
    ensures
        position_of(e, key) is None,
{
    assert(!exists|j: int| key_at(e, key, j));
}

/// The conditions under which an identifier under `_id` at `i` can be
/// renamed to `itemId` with nothing else under either key.
pub open spec fn sole_identifier(e: Seq<(String, JsonValue)>, i: int, k: String) -> bool {
    &&& 0 <= i < e.len() <= usize::MAX
    &&& e[i].0@ == "_id"@
    &&& e[i].1 is Str
    &&& k@ == "itemId"@
    &&& forall|j: int| 0 <= j < e.len() && j != i ==> e[j].0@ != "_id"@ && e[j].0@ != "itemId"@
}

proof fn lemma_sole_identifier(e: Seq<(String, JsonValue)>, i: int, k: String)
    requires
        sole_identifier(e, i, k),
    ensures
        position_of(e, "_id"@) == Some(i as usize),
        position_of(e, "itemId"@) is None,
        position_of(renamed(e, i, k), "_id"@) is None,
        position_of(renamed(e, i, k), "itemId"@) == Some(i as usize),
        alias_position(renamed(e, i, k), "_id"@, "itemId"@) == alias_position(e, "_id"@, "itemId"@),
{
    let f = renamed(e, i, k);
    reveal_strlit("_id");
    reveal_strlit("itemId");
    assert("_id"@.len() == 3);
    assert("itemId"@.len() == 6);
    lemma_position_of_only(e, i, "_id"@);
    lemma_position_of_none(e, "itemId"@);
    lemma_position_of_none(f, "_id"@);
    lemma_position_of_only(f, i, "itemId"@);
}

/// Renaming a taken entry leaves the first stray key as it was.
proof fn lemma_leftover_renamed(e: Seq<(String, JsonValue)>, used: Seq<Option<usize>>, i: int, k: String)
    requires
        0 <= i < e.len(),
        consumed(used, i),
    ensures
        leftover(renamed(e, i, k), used) == leftover(e, used),
{
    let f = renamed(e, i, k);
    assert forall|j: int| #[trigger] stray(f, used, j) == stray(e, used, j) by {
    }
    assert((|j: int| stray(f, used, j)) =~= (|j: int| stray(e, used, j)));
    if exists|j: int| stray(e, used, j) {
        let j = choose|j: int| stray(e, used, j);
        assert(stray(f, used, j));
        lemma_least_exists(|j: int| stray(e, used, j), j);
    } else {
        assert(!exists|j: int| stray(f, used, j)) by {
            if exists|j: int| stray(f, used, j) {
                let j = choose|j: int| stray(f, used, j);
                assert(stray(e, used, j));
            }
        }
    }
}

/// Alias equivalence of identifier objects: writing the identifier under
/// `itemId` instead of `_id` gives the same outcome.
pub proof fn item_id_alias_equivalence(e: Seq<(String, JsonValue)>, i: int, k: String)
    requires
        sole_identifier(e, i, k),
    ensures
        item_id_in(renamed(e, i, k)) == item_id_in(e),
{
    lemma_sole_identifier(e, i, k);
    let used = seq![alias_position(e, "_id"@, "itemId"@)];
    assert(used[0] == Some(i as usize));
    lemma_leftover_renamed(e, used, i, k);
}

/// Alias equivalence of attack rolls: writing the item identifier under
/// `itemId` instead of `_id` gives the same outcome.
pub proof fn attack_roll_alias_equivalence(e: Seq<(String, JsonValue)>, i: int, k: String)
    requires
        sole_identifier(e, i, k),
    ensures
        attack_roll_in(renamed(e, i, k)) == attack_roll_in(e),
{
    lemma_sole_identifier(e, i, k);
    reveal_strlit("_id");
    reveal_strlit("itemId");
    reveal_strlit("type");
    assert("_id"@.len() == 3);
    assert("itemId"@.len() == 6);
    assert("type"@.len() == 4);
    lemma_position_of_renamed(e, i, k, "type"@);
    let used = seq![position_of(e, "type"@), alias_position(e, "_id"@, "itemId"@)];
    assert(used[1] == Some(i as usize));
    lemma_leftover_renamed(e, used, i, k);
}

/// Alias equivalence of items: writing the identifier under `itemId` instead
/// of `_id` gives the same outcome.
pub proof fn item_alias_equivalence(e: Seq<(String, JsonValue)>, i: int, k: String)
    requires
        sole_identifier(e, i, k),
    ensures
        item_in(renamed(e, i, k)) == item_in(e),
{
    lemma_sole_identifier(e, i, k);
    reveal_strlit("_id");
    reveal_strlit("itemId");
    assert("_id"@.len() == 3);
    assert("itemId"@.len() == 6);
    reveal_strlit("name");
    assert("name"@.len() == 4);
    lemma_position_of(e, "name"@);
    reveal_strlit("type");
    assert("type"@.len() == 4);
    lemma_position_of(e, "type"@);
    reveal_strlit("data");
    assert("data"@.len() == 4);
    lemma_position_of(e, "data"@);
    reveal_strlit("img");
    assert("img"@.len() == 3);
    lemma_position_of(e, "img"@);
    reveal_strlit("folder");
    assert("folder"@.len() == 6);
    lemma_position_of(e, "folder"@);
    reveal_strlit("effects");
    assert("effects"@.len() == 7);
    lemma_position_of(e, "effects"@);
    reveal_strlit("sort");
    assert("sort"@.len() == 4);
    lemma_position_of(e, "sort"@);
    reveal_strlit("permission");
    assert("permission"@.len() == 10);
    lemma_position_of(e, "permission"@);
    reveal_strlit("flags");
    assert("flags"@.len() == 5);
    lemma_position_of(e, "flags"@);
    assert("_id"@[0] == '_');
    assert("itemId"@[0] == 'i');
    assert("name"@[0] == 'n');
    assert("type"@[0] == 't');
    assert("data"@[0] == 'd');
    assert("img"@[0] == 'i');
    assert("folder"@[0] == 'f');
    assert("effects"@[0] == 'e');
    assert("sort"@[0] == 's');
    assert("permission"@[0] == 'p');
    assert("flags"@[0] == 'f');
    lemma_position_of_renamed(e, i, k, "name"@);
    lemma_position_of_renamed(e, i, k, "type"@);
    lemma_position_of_renamed(e, i, k, "data"@);
    lemma_position_of_renamed(e, i, k, "img"@);
    lemma_position_of_renamed(e, i, k, "folder"@);
    lemma_position_of_renamed(e, i, k, "effects"@);
    lemma_position_of_renamed(e, i, k, "sort"@);
    lemma_position_of_renamed(e, i, k, "permission"@);
    lemma_position_of_renamed(e, i, k, "flags"@);
    let used = item_used(e);
    assert(item_used(renamed(e, i, k)) == used);
    assert(used[0] == Some(i as usize));
    lemma_leftover_renamed(e, used, i, k);
}

/// An identifier written under both `_id` and `itemId` is refused, the second
/// key reported as an unknown field.
pub proof fn both_identifiers_fail(e: Seq<(String, JsonValue)>)
    requires
        position_of(e, "_id"@) is Some,
        position_of(e, "itemId"@) is Some,
    ensures
        item_id_in(e) == Err::<ItemId, DecodeErrorView>(fault(ErrorKindView::UnknownField { key: "itemId"@ })),
        attack_roll_in(e) == Err::<RollType, DecodeErrorView>(fault(ErrorKindView::UnknownField { key: "itemId"@ })),
        item_in(e) == Err::<Item, DecodeErrorView>(fault(ErrorKindView::UnknownField { key: "itemId"@ })),
{
}

/// Every ability code names its ability.
pub proof fn ability_codes_are_exhaustive(a: Ability)
    ensures
        ability_for(ability_code(a)) == Some(a),
{
    reveal_strlit("str");
    reveal_strlit("dex");
    reveal_strlit("con");
    reveal_strlit("int");
    reveal_strlit("wis");
    reveal_strlit("cha");
    reveal_strlit("death");
    assert("str"@[0] == 's');
    assert("str"@[1] == 't');
    assert("str"@[2] == 'r');
    assert("dex"@[0] == 'd');
    assert("dex"@[1] == 'e');
    assert("dex"@[2] == 'x');
    assert("con"@[0] == 'c');
    assert("con"@[1] == 'o');
    assert("con"@[2] == 'n');
    assert("int"@[0] == 'i');
    assert("int"@[1] == 'n');
    assert("int"@[2] == 't');
    assert("wis"@[0] == 'w');
    assert("wis"@[1] == 'i');
    assert("wis"@[2] == 's');
    assert("cha"@[0] == 'c');
    assert("cha"@[1] == 'h');
    assert("cha"@[2] == 'a');
}

/// Every saving-throw code names its subject, death included.
pub proof fn save_codes_are_exhaustive(a: SaveType)
    ensures
        save_type_for(save_type_code(a)) == Some(a),
{
    reveal_strlit("str");
    reveal_strlit("dex");
    reveal_strlit("con");
    reveal_strlit("int");
    reveal_strlit("wis");
    reveal_strlit("cha");
    reveal_strlit("death");
    assert("death"@.len() == 5);
    assert("str"@[0] == 's');
    assert("str"@[1] == 't');
    assert("str"@[2] == 'r');
    assert("dex"@[0] == 'd');
    assert("dex"@[1] == 'e');
    assert("dex"@[2] == 'x');
    assert("con"@[0] == 'c');
    assert("con"@[1] == 'o');
    assert("con"@[2] == 'n');
    assert("int"@[0] == 'i');
    assert("int"@[1] == 'n');
    assert("int"@[2] == 't');
    assert("wis"@[0] == 'w');
    assert("wis"@[1] == 'i');
    assert("wis"@[2] == 's');
    assert("cha"@[0] == 'c');
    assert("cha"@[1] == 'h');
    assert("cha"@[2] == 'a');
    assert("death"@[0] == 'd');
    assert("death"@[1] == 'e');
    assert("death"@[2] == 'a');
    assert("death"@[3] == 't');
    assert("death"@[4] == 'h');
}

/// Every skill code names its skill.
pub proof fn skill_codes_are_exhaustive(k: Skill)
    ensures
        skill_for(skill_code(k)) == Some(k),
{
    reveal_strlit("ani");
    reveal_strlit("acr");
    reveal_strlit("arc");
    reveal_strlit("ath");
    reveal_strlit("dec");
    reveal_strlit("his");
    reveal_strlit("ins");
    reveal_strlit("itm");
    reveal_strlit("inv");
    reveal_strlit("med");
    reveal_strlit("nat");
    reveal_strlit("prf");
    reveal_strlit("prc");
    reveal_strlit("per");
    reveal_strlit("rel");
    reveal_strlit("slt");
    reveal_strlit("ste");
    reveal_strlit("sur");
    assert("ani"@[0] == 'a');
    assert("ani"@[1] == 'n');
    assert("ani"@[2] == 'i');
    assert("acr"@[0] == 'a');
    assert("acr"@[1] == 'c');
    assert("acr"@[2] == 'r');
    assert("arc"@[0] == 'a');
    assert("arc"@[1] == 'r');
    assert("arc"@[2] == 'c');
    assert("ath"@[0] == 'a');
    assert("ath"@[1] == 't');
    assert("ath"@[2] == 'h');
    assert("dec"@[0] == 'd');
    assert("dec"@[1] == 'e');
    assert("dec"@[2] == 'c');
    assert("his"@[0] == 'h');
    assert("his"@[1] == 'i');
    assert("his"@[2] == 's');
    assert("ins"@[0] == 'i');
    assert("ins"@[1] == 'n');
    assert("ins"@[2] == 's');
    assert("itm"@[0] == 'i');
    assert("itm"@[1] == 't');
    assert("itm"@[2] == 'm');
    assert("inv"@[0] == 'i');
    assert("inv"@[1] == 'n');
    assert("inv"@[2] == 'v');
    assert("med"@[0] == 'm');
    assert("med"@[1] == 'e');
    assert("med"@[2] == 'd');
    assert("nat"@[0] == 'n');
    assert("nat"@[1] == 'a');
    assert("nat"@[2] == 't');
    assert("prf"@[0] == 'p');
    assert("prf"@[1] == 'r');
    assert("prf"@[2] == 'f');
    assert("prc"@[0] == 'p');
    assert("prc"@[1] == 'r');
    assert("prc"@[2] == 'c');
    assert("per"@[0] == 'p');
    assert("per"@[1] == 'e');
    assert("per"@[2] == 'r');
    assert("rel"@[0] == 'r');
    assert("rel"@[1] == 'e');
    assert("rel"@[2] == 'l');
    assert("slt"@[0] == 's');
    assert("slt"@[1] == 'l');
    assert("slt"@[2] == 't');
    assert("ste"@[0] == 's');
    assert("ste"@[1] == 't');
    assert("ste"@[2] == 'e');
    assert("sur"@[0] == 's');
    assert("sur"@[1] == 'u');
    assert("sur"@[2] == 'r');
}

/// Whether `t` is the tag of one of the eight kinds of roll.
pub open spec fn roll_tag(t: Seq<char>) -> bool {
    t == "save"@ || t == "ability"@ || t == "skill"@ || t == "attack"@ || t == "damage"@ || t == "hitDie"@
        || t == "hitPoints"@ || t == "death"@
}

/// Any other roll tag fails, at `type`, as an unknown variant.
pub proof fn unknown_roll_tags_fail(e: Seq<(String, JsonValue)>, t: Seq<char>)
    requires
        !roll_tag(t),
    ensures
        roll_variant_in(e, t) == Err::<RollType, DecodeErrorView>(
            within(StepView::Key("type"@), fault(ErrorKindView::UnknownVariant { discriminator: "type"@, value: t })),
        ),
{
}

/// Any other namespace fails as an unknown variant.
pub proof fn unknown_namespaces_fail(ns: Seq<char>, payload: JsonValue)
    requires
        ns != "dnd5e"@ && ns != "core"@ && ns != "polyglot"@ && ns != "monks-little-details"@,
    ensures
        namespace_of(ns, payload) == Err::<MessageFlagView, DecodeErrorView>(
            fault(ErrorKindView::UnknownVariant { discriminator: "namespace"@, value: ns }),
        ),
{
}

proof fn lemma_single_entry(tk: String, tv: JsonValue, key: Seq<char>)
    ensures
        position_of(seq![(tk, tv)], key) == if tk@ == key { Some(0usize) } else { None::<usize> },
{
    let e = seq![(tk, tv)];
    if tk@ == key {
        lemma_position_of_only(e, 0, key);
    } else {
        lemma_position_of_none(e, key);
    }
}

proof fn lemma_two_entries(tk: String, tv: JsonValue, ak: String, av: JsonValue, key: Seq<char>)
    requires
        tk@ != ak@,
    ensures
        position_of(seq![(tk, tv), (ak, av)], key) == if tk@ == key {
            Some(0usize)
        } else if ak@ == key {
            Some(1usize)
        } else {
            None::<usize>
        },
{
    let e = seq![(tk, tv), (ak, av)];
    if tk@ == key {
        lemma_position_of_only(e, 0, key);
    } else if ak@ == key {
        lemma_position_of_only(e, 1, key);
    } else {
        lemma_position_of_none(e, key);
    }
}

proof fn lemma_only_entries_taken(e: Seq<(String, JsonValue)>, used: Seq<Option<usize>>)
    requires
        forall|j: int| 0 <= j < e.len() ==> #[trigger] consumed(used, j),
    ensures
        leftover(e, used) is Ok,
{
    assert(!exists|j: int| stray(e, used, j));
}

/// A roll tag with nothing beside it decodes to the roll that carries nothing.
pub proof fn minimal_unit_rolls_decode(tk: String, tv: String)
    requires
        tk@ == "type"@,
        tv@ == "hitDie"@ || tv@ == "hitPoints"@ || tv@ == "death"@,
    ensures
        roll_type_in(seq![(tk, JsonValue::Str(tv))]) == Ok::<RollType, DecodeErrorView>(
            if tv@ == "hitDie"@ {
                RollType::HitDie
            } else if tv@ == "hitPoints"@ {
                RollType::HitPoints
            } else {
                RollType::Death
            },
        ),
{
    let e = seq![(tk, JsonValue::Str(tv))];
    reveal_strlit("type");
    reveal_strlit("abilityId");
    reveal_strlit("skillId");
    reveal_strlit("_id");
    reveal_strlit("itemId");
    reveal_strlit("versatile");
    assert("type"@.len() == 4);
    assert("abilityId"@.len() == 9);
    assert("skillId"@.len() == 7);
    assert("_id"@.len() == 3);
    assert("itemId"@.len() == 6);
    assert("versatile"@.len() == 9);
    lemma_single_entry(tk, JsonValue::Str(tv), "type"@);
    let used = seq![position_of(e, "type"@)];
    assert(used[0] == Some(0usize));
    assert(consumed(used, 0));
    lemma_only_entries_taken(e, used);
    reveal_strlit("save");
    reveal_strlit("ability");
    reveal_strlit("skill");
    reveal_strlit("attack");
    reveal_strlit("damage");
    reveal_strlit("hitDie");
    reveal_strlit("hitPoints");
    reveal_strlit("death");
    assert("save"@.len() == 4);
    assert("ability"@.len() == 7);
    assert("skill"@.len() == 5);
    assert("attack"@.len() == 6);
    assert("damage"@.len() == 6);
    assert("hitDie"@.len() == 6);
    assert("hitPoints"@.len() == 9);
    assert("death"@.len() == 5);
    assert("save"@[0] == 's');
    assert("ability"@[0] == 'a');
    assert("skill"@[0] == 's');
    assert("attack"@[0] == 'a');
    assert("damage"@[0] == 'd');
    assert("hitDie"@[0] == 'h');
    assert("hitPoints"@[0] == 'h');
    assert("death"@[0] == 'd');
    assert("save"@.len() == 4);
    assert("ability"@.len() == 7);
    assert("skill"@.len() == 5);
    assert("attack"@.len() == 6);
    assert("damage"@.len() == 6);
    assert("hitDie"@.len() == 6);
    assert("hitPoints"@.len() == 9);
    assert("death"@.len() == 5);
}

/// A saving throw with its subject and nothing else decodes to that saving throw.
pub proof fn minimal_save_rolls_decode(tk: String, tv: String, ak: String, av: String, a: SaveType)
    requires
        tk@ == "type"@,
        tv@ == "save"@,
        ak@ == "abilityId"@ && av@ == save_type_code(a),
    ensures
        roll_type_in(seq![(tk, JsonValue::Str(tv)), (ak, JsonValue::Str(av))]) == Ok::<RollType, DecodeErrorView>(
            RollType::SavingThrow { ability: a },
        ),
{
    let e = seq![(tk, JsonValue::Str(tv)), (ak, JsonValue::Str(av))];
    reveal_strlit("type");
    reveal_strlit("abilityId");
    reveal_strlit("skillId");
    reveal_strlit("_id");
    reveal_strlit("itemId");
    reveal_strlit("versatile");
    assert("type"@.len() == 4);
    assert("abilityId"@.len() == 9);
    assert("skillId"@.len() == 7);
    assert("_id"@.len() == 3);
    assert("itemId"@.len() == 6);
    assert("versatile"@.len() == 9);
    reveal_strlit("save");
    reveal_strlit("ability");
    reveal_strlit("skill");
    reveal_strlit("attack");
    reveal_strlit("damage");
    reveal_strlit("hitDie");
    reveal_strlit("hitPoints");
    reveal_strlit("death");
    assert("save"@[0] == 's');
    assert("ability"@[0] == 'a');
    assert("skill"@[0] == 's');
    assert("attack"@[0] == 'a');
    assert("damage"@[0] == 'd');
    assert("hitDie"@[0] == 'h');
    assert("hitPoints"@[0] == 'h');
    assert("death"@[0] == 'd');
    assert("save"@.len() == 4);
    assert("ability"@.len() == 7);
    assert("skill"@.len() == 5);
    assert("attack"@.len() == 6);
    assert("damage"@.len() == 6);
    assert("hitDie"@.len() == 6);
    assert("hitPoints"@.len() == 9);
    assert("death"@.len() == 5);
    save_codes_are_exhaustive(a);
    lemma_two_entries(tk, JsonValue::Str(tv), ak, JsonValue::Str(av), "type"@);
    lemma_two_entries(tk, JsonValue::Str(tv), ak, JsonValue::Str(av), "abilityId"@);
    lemma_two_entries(tk, JsonValue::Str(tv), ak, JsonValue::Str(av), "skillId"@);
    lemma_two_entries(tk, JsonValue::Str(tv), ak, JsonValue::Str(av), "_id"@);
    lemma_two_entries(tk, JsonValue::Str(tv), ak, JsonValue::Str(av), "itemId"@);
    lemma_two_entries(tk, JsonValue::Str(tv), ak, JsonValue::Str(av), "versatile"@);
    let used = seq![Some(0usize), Some(1usize)];
    assert(used[0] == Some(0usize) && used[1] == Some(1usize));
    assert(consumed(used, 0) && consumed(used, 1));
    lemma_only_entries_taken(e, used);
    let used3 = seq![Some(0usize), Some(1usize), None::<usize>];
    assert(used3[0] == Some(0usize) && used3[1] == Some(1usize));
    assert(consumed(used3, 0) && consumed(used3, 1));
    lemma_only_entries_taken(e, used3);
}

/// An ability check with its ability and nothing else decodes to that check.
pub proof fn minimal_ability_rolls_decode(tk: String, tv: String, ak: String, av: String, a: Ability)
    requires
        tk@ == "type"@,
        tv@ == "ability"@,
        ak@ == "abilityId"@ && av@ == ability_code(a),
    ensures
        roll_type_in(seq![(tk, JsonValue::Str(tv)), (ak, JsonValue::Str(av))]) == Ok::<RollType, DecodeErrorView>(
            RollType::AbilityCheck { ability: a },
        ),
{
    let e = seq![(tk, JsonValue::Str(tv)), (ak, JsonValue::Str(av))];
    reveal_strlit("type");
    reveal_strlit("abilityId");
    reveal_strlit("skillId");
    reveal_strlit("_id");
    reveal_strlit("itemId");
    reveal_strlit("versatile");
    assert("type"@.len() == 4);
    assert("abilityId"@.len() == 9);
    assert("skillId"@.len() == 7);
    assert("_id"@.len() == 3);
    assert("itemId"@.len() == 6);
    assert("versatile"@.len() == 9);
    reveal_strlit("save");
    reveal_strlit("ability");
    reveal_strlit("skill");
    reveal_strlit("attack");
    reveal_strlit("damage");
    reveal_strlit("hitDie");
    reveal_strlit("hitPoints");
    reveal_strlit("death");
    assert("save"@[0] == 's');
    assert("ability"@[0] == 'a');
    assert("skill"@[0] == 's');
    assert("attack"@[0] == 'a');
    assert("damage"@[0] == 'd');
    assert("hitDie"@[0] == 'h');
    assert("hitPoints"@[0] == 'h');
    assert("death"@[0] == 'd');
    assert("save"@.len() == 4);
    assert("ability"@.len() == 7);
    assert("skill"@.len() == 5);
    assert("attack"@.len() == 6);
    assert("damage"@.len() == 6);
    assert("hitDie"@.len() == 6);
    assert("hitPoints"@.len() == 9);
    assert("death"@.len() == 5);
    ability_codes_are_exhaustive(a);
    lemma_two_entries(tk, JsonValue::Str(tv), ak, JsonValue::Str(av), "type"@);
    lemma_two_entries(tk, JsonValue::Str(tv), ak, JsonValue::Str(av), "abilityId"@);
    lemma_two_entries(tk, JsonValue::Str(tv), ak, JsonValue::Str(av), "skillId"@);
    lemma_two_entries(tk, JsonValue::Str(tv), ak, JsonValue::Str(av), "_id"@);
    lemma_two_entries(tk, JsonValue::Str(tv), ak, JsonValue::Str(av), "itemId"@);
    lemma_two_entries(tk, JsonValue::Str(tv), ak, JsonValue::Str(av), "versatile"@);
    let used = seq![Some(0usize), Some(1usize)];
    assert(used[0] == Some(0usize) && used[1] == Some(1usize));
    assert(consumed(used, 0) && consumed(used, 1));
    lemma_only_entries_taken(e, used);
    let used3 = seq![Some(0usize), Some(1usize), None::<usize>];
    assert(used3[0] == Some(0usize) && used3[1] == Some(1usize));
    assert(consumed(used3, 0) && consumed(used3, 1));
    lemma_only_entries_taken(e, used3);
}

/// A skill check with its skill and nothing else decodes to that check.
pub proof fn minimal_skill_rolls_decode(tk: String, tv: String, ak: String, av: String, k: Skill)
    requires
        tk@ == "type"@,
        tv@ == "skill"@,
        ak@ == "skillId"@ && av@ == skill_code(k),
    ensures
        roll_type_in(seq![(tk, JsonValue::Str(tv)), (ak, JsonValue::Str(av))]) == Ok::<RollType, DecodeErrorView>(
            RollType::SkillCheck(k),
        ),
{
    let e = seq![(tk, JsonValue::Str(tv)), (ak, JsonValue::Str(av))];
    reveal_strlit("type");
    reveal_strlit("abilityId");
    reveal_strlit("skillId");
    reveal_strlit("_id");
    reveal_strlit("itemId");
    reveal_strlit("versatile");
    assert("type"@.len() == 4);
    assert("abilityId"@.len() == 9);
    assert("skillId"@.len() == 7);
    assert("_id"@.len() == 3);
    assert("itemId"@.len() == 6);
    assert("versatile"@.len() == 9);
    reveal_strlit("save");
    reveal_strlit("ability");
    reveal_strlit("skill");
    reveal_strlit("attack");
    reveal_strlit("damage");
    reveal_strlit("hitDie");
    reveal_strlit("hitPoints");
    reveal_strlit("death");
    assert("save"@[0] == 's');
    assert("ability"@[0] == 'a');
    assert("skill"@[0] == 's');
    assert("attack"@[0] == 'a');
    assert("damage"@[0] == 'd');
    assert("hitDie"@[0] == 'h');
    assert("hitPoints"@[0] == 'h');
    assert("death"@[0] == 'd');
    assert("save"@.len() == 4);
    assert("ability"@.len() == 7);
    assert("skill"@.len() == 5);
    assert("attack"@.len() == 6);
    assert("damage"@.len() == 6);
    assert("hitDie"@.len() == 6);
    assert("hitPoints"@.len() == 9);
    assert("death"@.len() == 5);
    skill_codes_are_exhaustive(k);
    lemma_two_entries(tk, JsonValue::Str(tv), ak, JsonValue::Str(av), "type"@);
    lemma_two_entries(tk, JsonValue::Str(tv), ak, JsonValue::Str(av), "abilityId"@);
    lemma_two_entries(tk, JsonValue::Str(tv), ak, JsonValue::Str(av), "skillId"@);
    lemma_two_entries(tk, JsonValue::Str(tv), ak, JsonValue::Str(av), "_id"@);
    lemma_two_entries(tk, JsonValue::Str(tv), ak, JsonValue::Str(av), "itemId"@);
    lemma_two_entries(tk, JsonValue::Str(tv), ak, JsonValue::Str(av), "versatile"@);
    let used = seq![Some(0usize), Some(1usize)];
    assert(used[0] == Some(0usize) && used[1] == Some(1usize));
    assert(consumed(used, 0) && consumed(used, 1));
    lemma_only_entries_taken(e, used);
    let used3 = seq![Some(0usize), Some(1usize), None::<usize>];
    assert(used3[0] == Some(0usize) && used3[1] == Some(1usize));
    assert(consumed(used3, 0) && consumed(used3, 1));
    lemma_only_entries_taken(e, used3);
}

/// An attack or damage roll with its item identifier, under either key, and
/// nothing else decodes to that roll; damage is then not versatile.
pub proof fn minimal_item_rolls_decode(tk: String, tv: String, ak: String, av: String)
    requires
        tk@ == "type"@,
        tv@ == "attack"@ || tv@ == "damage"@,
        ak@ == "_id"@ || ak@ == "itemId"@,
    ensures
        roll_type_in(seq![(tk, JsonValue::Str(tv)), (ak, JsonValue::Str(av))]) == Ok::<RollType, DecodeErrorView>(
            if tv@ == "attack"@ { RollType::Attack(ItemId { id: av }) } else { RollType::Damage { item_id: ItemId { id: av }, versatile: false } },
        ),
{
    let e = seq![(tk, JsonValue::Str(tv)), (ak, JsonValue::Str(av))];
    reveal_strlit("type");
    reveal_strlit("abilityId");
    reveal_strlit("skillId");
    reveal_strlit("_id");
    reveal_strlit("itemId");
    reveal_strlit("versatile");
    assert("type"@.len() == 4);
    assert("abilityId"@.len() == 9);
    assert("skillId"@.len() == 7);
    assert("_id"@.len() == 3);
    assert("itemId"@.len() == 6);
    assert("versatile"@.len() == 9);
    reveal_strlit("save");
    reveal_strlit("ability");
    reveal_strlit("skill");
    reveal_strlit("attack");
    reveal_strlit("damage");
    reveal_strlit("hitDie");
    reveal_strlit("hitPoints");
    reveal_strlit("death");
    assert("save"@[0] == 's');
    assert("ability"@[0] == 'a');
    assert("skill"@[0] == 's');
    assert("attack"@[0] == 'a');
    assert("damage"@[0] == 'd');
    assert("hitDie"@[0] == 'h');
    assert("hitPoints"@[0] == 'h');
    assert("death"@[0] == 'd');
    assert("save"@.len() == 4);
    assert("ability"@.len() == 7);
    assert("skill"@.len() == 5);
    assert("attack"@.len() == 6);
    assert("damage"@.len() == 6);
    assert("hitDie"@.len() == 6);
    assert("hitPoints"@.len() == 9);
    assert("death"@.len() == 5);
    lemma_two_entries(tk, JsonValue::Str(tv), ak, JsonValue::Str(av), "type"@);
    lemma_two_entries(tk, JsonValue::Str(tv), ak, JsonValue::Str(av), "abilityId"@);
    lemma_two_entries(tk, JsonValue::Str(tv), ak, JsonValue::Str(av), "skillId"@);
    lemma_two_entries(tk, JsonValue::Str(tv), ak, JsonValue::Str(av), "_id"@);
    lemma_two_entries(tk, JsonValue::Str(tv), ak, JsonValue::Str(av), "itemId"@);
    lemma_two_entries(tk, JsonValue::Str(tv), ak, JsonValue::Str(av), "versatile"@);
    let used = seq![Some(0usize), Some(1usize)];
    assert(used[0] == Some(0usize) && used[1] == Some(1usize));
    assert(consumed(used, 0) && consumed(used, 1));
    lemma_only_entries_taken(e, used);
    let used3 = seq![Some(0usize), Some(1usize), None::<usize>];
    assert(used3[0] == Some(0usize) && used3[1] == Some(1usize));
    assert(consumed(used3, 0) && consumed(used3, 1));
    lemma_only_entries_taken(e, used3);
}

/// Every namespace decodes from a payload that holds only what it requires:
/// `core` from an empty object, `polyglot` from its language, the
/// `monks-little-details` module from its round marker, and `dnd5e` from a
/// roll or an item that decodes.
pub proof fn minimal_namespaces_decode(ns: Seq<char>, p: JsonValue, k: String, x: JsonValue)
    requires
        p is Object,
        ns == "core"@ ==> p->Object_0@.len() == 0,
        ns != "core"@ ==> p->Object_0@ == seq![(k, x)],
        ns == "polyglot"@ ==> k@ == "language"@ && x is Str,
        ns == "monks-little-details"@ ==> k@ == "roundmarker"@ && x is Bool,
        ns == "dnd5e"@ ==> (k@ == "roll"@ && crate::message_flag::roll_type_of(x) is Ok) || (k@ == "itemData"@
            && item_of(x) is Ok),
        ns == "dnd5e"@ || ns == "core"@ || ns == "polyglot"@ || ns == "monks-little-details"@,
    ensures
        namespace_of(ns, p) == Ok::<MessageFlagView, DecodeErrorView>(
            if ns == "core"@ {
                MessageFlagView::Core(CoreFlagView { can_popout: false, initiative_roll: false, roll_table: Seq::empty() })
            } else if ns == "polyglot"@ {
                MessageFlagView::Polyglot(PolyglotFlag { language: x->Str_0 })
            } else if ns == "monks-little-details"@ {
                MessageFlagView::MonksLittleDetails(MonksLittleDetailsFlag::RoundMarker(x->Bool_0))
            } else if k@ == "roll"@ {
                MessageFlagView::DnD5E(Dnd5eFlag::Roll(crate::message_flag::roll_type_of(x)->Ok_0))
            } else {
                MessageFlagView::DnD5E(Dnd5eFlag::ItemData(item_of(x)->Ok_0))
            },
        ),
{
    reveal_strlit("dnd5e");
    reveal_strlit("core");
    reveal_strlit("polyglot");
    reveal_strlit("monks-little-details");
    assert("dnd5e"@.len() == 5);
    assert("core"@.len() == 4);
    assert("polyglot"@.len() == 8);
    assert("monks-little-details"@.len() == 20);
    reveal_strlit("roll");
    reveal_strlit("itemData");
    assert("roll"@.len() == 4);
    assert("itemData"@.len() == 8);
    let e = p->Object_0@;
    if ns == "core"@ {
        lemma_position_of_none(e, "canPopout"@);
        lemma_position_of_none(e, "initiativeRoll"@);
        lemma_position_of_none(e, "RollTable"@);
        let used = seq![None::<usize>, None::<usize>, None::<usize>];
        lemma_only_entries_taken(e, used);
    } else if ns == "polyglot"@ {
        lemma_single_entry(k, x, "language"@);
        let used = seq![Some(0usize)];
        assert(used[0] == Some(0usize));
        assert(consumed(used, 0));
        lemma_only_entries_taken(e, used);
    } else {
        let used = seq![Some(0usize)];
        assert(used[0] == Some(0usize));
        assert(consumed(used, 0));
        lemma_only_entries_taken(e, used);
        if ns == "dnd5e"@ {
            lemma_position_of_either_at(e, "roll"@, "itemData"@, 0);
        } else {
            lemma_single_entry(k, x, "roundmarker"@);
        }
    }
}

/// In a message that decodes, a flags value that fails makes the message fail
/// at `flags`, with that failure.
proof fn lemma_message_flags_fail(e: Seq<(String, JsonValue)>, w: JsonValue, x: DecodeErrorView)
    requires
        message_in(e) is Ok,
        position_of(e, "flags"@) is Some,
        flags_of(w) == Err::<Seq<MessageFlagView>, DecodeErrorView>(x),
        e.len() <= usize::MAX,
    ensures
        message_in(with_value(e, position_of(e, "flags"@)->Some_0 as int, w))
            == Err::<MessageView, DecodeErrorView>(within(StepView::Key("flags"@), x)),
{
    let i = position_of(e, "flags"@)->Some_0 as int;
    lemma_position_of(e, "flags"@);
    let f = with_value(e, i, w);
    lemma_position_of_with_value(e, i, w, "type"@);
    lemma_position_of_with_value(e, i, w, "user"@);
    lemma_position_of_with_value(e, i, w, "_id"@);
    lemma_position_of_with_value(e, i, w, "flags"@);
    lemma_position_of(e, "type"@);
    lemma_position_of(e, "user"@);
    lemma_position_of(e, "_id"@);
    reveal_strlit("flags");
    reveal_strlit("type");
    reveal_strlit("user");
    reveal_strlit("_id");
    assert("flags"@.len() == 5);
    assert("type"@.len() == 4);
    assert("user"@.len() == 4);
    assert("_id"@.len() == 3);
    assert(f[i].1 == w);
}

/// In flags that decode, a `dnd5e` payload that fails makes the flags fail
/// at `dnd5e`, with that failure.
proof fn lemma_flags_dnd5e_fail(e: Seq<(String, JsonValue)>, i: int, w: JsonValue, x: DecodeErrorView)
    requires
        flags_in(e) is Ok,
        0 <= i < e.len(),
        e[i].0@ == "dnd5e"@,
        dnd5e_of(w) == Err::<Dnd5eFlag, DecodeErrorView>(x),
    ensures
        flags_in(with_value(e, i, w)) == Err::<Seq<MessageFlagView>, DecodeErrorView>(
            within(StepView::Key("dnd5e"@), x),
        ),
{
    let f = with_value(e, i, w);
    assert forall|j: int| 0 <= j < f.len() implies #[trigger] repeated_key(f, j) == repeated_key(e, j) by {
        if repeated_key(e, j) {
            let m = choose|m: int| 0 <= m < j && e[m].0@ == e[j].0@;
            assert(f[m].0@ == f[j].0@);
        }
        if repeated_key(f, j) {
            let m = choose|m: int| 0 <= m < j && f[m].0@ == f[j].0@;
            assert(e[m].0@ == e[j].0@);
        }
    }
    assert forall|j: int| 0 <= j < i implies (#[trigger] flag_entry(f, j)) is Ok by {
        lemma_all_of_ok_each(e.len() as int, |i: int| flag_entry(e, i), j);
        assert(flag_entry(e, j) is Ok);
        assert(repeated_key(f, j) == repeated_key(e, j));
        assert(f[j] == e[j]);
    }
    lemma_all_of_ok_each(e.len() as int, |i: int| flag_entry(e, i), i);
    assert(flag_entry(e, i) is Ok);
    assert(repeated_key(f, i) == repeated_key(e, i));
    reveal_strlit("dnd5e");
    assert(f[i].1 == w);
    lemma_all_of_err(f.len() as int, |i: int| flag_entry(f, i), i);
}

/// Strictness three levels down: in a message that decodes and carries a
/// roll, adding a key that no roll names to the roll makes the message fail
/// at `flags`, `dnd5e`, `roll`, with that key as an unknown field.
pub proof fn message_rejects_unknown_roll_key(
    e: Seq<(String, JsonValue)>,
    di: int,
    entry: (String, JsonValue),
    roll: JsonValue,
    payload: JsonValue,
    flags: JsonValue,
)
    requires
        message_in(e) is Ok,
        position_of(e, "flags"@) is Some,
        e[position_of(e, "flags"@)->Some_0 as int].1 is Object,
        ({
            let fe = e[position_of(e, "flags"@)->Some_0 as int].1->Object_0@;
            &&& 0 <= di < fe.len()
            &&& fe[di].0@ == "dnd5e"@
            &&& fe[di].1 is Object
            &&& fe[di].1->Object_0@.len() == 1
            &&& fe[di].1->Object_0@[0].0@ == "roll"@
            &&& fe[di].1->Object_0@[0].1 is Object
            &&& roll is Object
            &&& roll->Object_0@ == fe[di].1->Object_0@[0].1->Object_0@.push(entry)
            &&& payload is Object
            &&& payload->Object_0@ == seq![(fe[di].1->Object_0@[0].0, roll)]
            &&& flags is Object
            &&& flags->Object_0@ == with_value(fe, di, payload)
        }),
        !roll_key(entry.0@),
        e.len() < usize::MAX,
    ensures
        message_in(with_value(e, position_of(e, "flags"@)->Some_0 as int, flags))
            == Err::<MessageView, DecodeErrorView>(
            within(
                StepView::Key("flags"@),
                within(
                    StepView::Key("dnd5e"@),
                    within(StepView::Key("roll"@), fault(ErrorKindView::UnknownField { key: entry.0@ })),
                ),
            ),
        ),
{
    let fi = position_of(e, "flags"@)->Some_0 as int;
    lemma_position_of(e, "flags"@);
    let fe = e[fi].1->Object_0@;
    let re = fe[di].1->Object_0@[0].1->Object_0@;
    let rv = roll->Object_0;
    vstd::std_specs::vec::axiom_spec_len(&rv);
    assert(re.len() < usize::MAX);
    // The flags, the payload and the roll of the message all decode.
    assert(flags_of(e[fi].1) is Ok);
    lemma_all_of_ok_each(fe.len() as int, |i: int| flag_entry(fe, i), di);
    assert(flag_entry(fe, di) is Ok);
    reveal_strlit("dnd5e");
    reveal_strlit("core");
    reveal_strlit("polyglot");
    reveal_strlit("monks-little-details");
    reveal_strlit("roll");
    reveal_strlit("itemData");
    assert("dnd5e"@.len() == 5);
    assert("core"@.len() == 4);
    assert("polyglot"@.len() == 8);
    assert("monks-little-details"@.len() == 20);
    assert("roll"@.len() == 4);
    assert("itemData"@.len() == 8);
    let pe = fe[di].1->Object_0@;
    lemma_position_of_either_at(pe, "roll"@, "itemData"@, 0);
    lemma_position_of_either_at(payload->Object_0@, "roll"@, "itemData"@, 0);
    assert(dnd5e_of(fe[di].1) is Ok);
    assert(roll_type_in(re) is Ok);
    assert(leftover(payload->Object_0@, seq![Some(0usize)]) is Ok) by {
        let used = seq![Some(0usize)];
        assert(used[0] == Some(0usize));
        assert(consumed(used, 0));
        lemma_only_entries_taken(payload->Object_0@, used);
    }
    roll_rejects_unknown_key(re, entry);
    let x = within(StepView::Key("roll"@), fault(ErrorKindView::UnknownField { key: entry.0@ }));
    assert(dnd5e_of(payload) == Err::<Dnd5eFlag, DecodeErrorView>(x));
    lemma_flags_dnd5e_fail(fe, di, payload, x);
    assert(flags_of(flags) == Err::<Seq<MessageFlagView>, DecodeErrorView>(within(StepView::Key("dnd5e"@), x)));
    lemma_message_flags_fail(e, flags, within(StepView::Key("dnd5e"@), x));
}

/// The two revisions of the message schema coexist: in a message that
/// decodes, a missing `user` or `flavor` reads as absent and a present one is
/// kept; a `roll` string is kept as written, and a missing `roll` reads as
/// the empty string.
pub proof fn message_revisions_coexist(e: Seq<(String, JsonValue)>)
    requires
        message_in(e) is Ok,
    ensures
        ({
            let m = message_in(e)->Ok_0;
            &&& position_of(e, "user"@) is None ==> m.user is None
            &&& position_of(e, "flavor"@) is None ==> m.flavor is None
            &&& position_of(e, "roll"@) is None ==> m.roll == Seq::<char>::empty()
            &&& position_of(e, "roll"@) matches Some(i) ==> e[i as int].1 is Str && m.roll
                == e[i as int].1->Str_0@
            &&& position_of(e, "flavor"@) matches Some(i) ==> (e[i as int].1 is Str ==> m.flavor == Some(
                e[i as int].1->Str_0,
            ))
            &&& position_of(e, "user"@) matches Some(i) ==> (e[i as int].1 is Str ==> m.user == Some(
                UserId(e[i as int].1->Str_0),
            ))
        }),
{
}

/// Timestamps are exact to the millisecond: in a message that decodes, the
/// timestamp is an integer count of milliseconds, the instant's seconds are
/// that count divided by 1000, rounded down, and its milliseconds are the rest.
pub proof fn message_timestamp_is_exact(e: Seq<(String, JsonValue)>)
    requires
        message_in(e) is Ok,
    ensures
        ({
            let m = message_in(e)->Ok_0;
            let i = position_of(e, "timestamp"@)->Some_0 as int;
            &&& position_of(e, "timestamp"@) is Some
            &&& e[i].1 is Int
            &&& m.timestamp.unix_seconds as int == e[i].1->Int_0 as int / 1000
            &&& m.timestamp.millis as int == e[i].1->Int_0 as int % 1000
        }),
{
}

/// Strictness of `dnd5e` payloads: beside the key that selects the variant,
/// an added key is an unknown field.
pub proof fn dnd5e_rejects_extra_key(v: JsonValue, w: JsonValue, entry: (String, JsonValue))
    requires
        dnd5e_of(v) is Ok,
        v is Object,
        w is Object,
        w->Object_0@ == v->Object_0@.push(entry),
        entry.0@ != "roll"@ && entry.0@ != "itemData"@,
        v->Object_0@.len() < usize::MAX,
    ensures
        dnd5e_of(w) == Err::<Dnd5eFlag, DecodeErrorView>(fault(ErrorKindView::UnknownField { key: entry.0@ })),
{
    let e = v->Object_0@;
    let f = e.push(entry);
    lemma_position_of_either(e, "roll"@, "itemData"@);
    let i = position_of_either(e, "roll"@, "itemData"@)->Some_0 as int;
    assert(f[i] == e[i]);
    assert forall|j: int| 0 <= j < i implies !#[trigger] names_either(f, "roll"@, "itemData"@, j) by {
        assert(f[j] == e[j]);
        assert(!names_either(e, "roll"@, "itemData"@, j));
    }
    lemma_position_of_either_at(f, "roll"@, "itemData"@, i);
    let used = seq![Some(i as usize)];
    assert forall|k: int| 0 <= k < used.len() implies (#[trigger] used[k] matches Some(x) ==> x < e.len()) by {
    }
    lemma_leftover_push(e, used, entry);
}

} // verus!
