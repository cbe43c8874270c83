//! Game-object definitions.
use vstd::prelude::*;

use crate::error::{DecodeError, DecodeErrorView, ErrorKindView, fault, mismatch, outcome};
use crate::fields::{
    alias_position, aliased, aliased_string, bool_of, decode_entries, decode_string, entries_of,
    finish, leftover, optional, optional_string, optional_u64, raw_field, reject_leftover, required,
    required_bool, required_string, required_u64, string_of, take, u64_of, variant_of,
};
use crate::json::{JsonKind, JsonValue, position_of, text_is};
use crate::message_flag::{Ability, ability_for, decode_ability_code};

verus! {

/// The identifier of an item.
#[derive(Debug, PartialEq, Eq)]
pub struct ItemId {
    pub id: String,
}

#[derive(Debug, PartialEq, Eq)]
pub struct ItemDescription {
    pub value: String,
    pub chat: String,
    pub unidentified: String,
}

#[derive(Debug, Clone, Copy, PartialEq, Eq, Structural)]
pub enum ItemRarity {
    Uncommon,
    VeryRare,
}

#[derive(Debug, Clone, Copy, PartialEq, Eq, Structural)]
pub enum ActivationType {
    Action,
}

#[derive(Debug, PartialEq, Eq)]
pub struct ItemActivation {
    pub activation_type: ActivationType,
    pub cost: u64,
    pub condition: String,
}

/// The physical part of an item.
///
/// The fields that the system's rules read are decoded; the nested blocks
/// that only its sheets read (duration, target, range, uses, ...) are kept as
/// they are written. A key that the schema does not name is refused.
#[derive(Debug, PartialEq, Eq)]
pub struct ItemData<'a> {
    pub description: ItemDescription,
    pub source: String,
    pub quantity: u64,
    pub weight: u64,
    pub price: Option<u64>,
    pub attunement: u64,
    pub equipped: bool,
    pub rarity: ItemRarity,
    pub identified: bool,
    pub ability: Option<Ability>,
    pub action_type: String,
    pub attack_bonus: u64,
    pub chat_flavor: String,
    pub activation: Option<ItemActivation>,
    pub formula: Option<String>,
    pub consumable_type: Option<String>,
    pub duration: Option<&'a JsonValue>,
    pub target: Option<&'a JsonValue>,
    pub range: Option<&'a JsonValue>,
    pub uses: Option<&'a JsonValue>,
    pub consume: Option<&'a JsonValue>,
    pub critical: Option<&'a JsonValue>,
    pub damage: Option<&'a JsonValue>,
    pub save: Option<&'a JsonValue>,
    pub attributes: Option<&'a JsonValue>,
    pub consumes: Option<&'a JsonValue>,
    pub charges: Option<&'a JsonValue>,
    pub auto_use: Option<&'a JsonValue>,
    pub auto_destroy: Option<&'a JsonValue>,
}

/// An item. Its effects, sort order, permissions and module flags are kept
/// as they are written; a key that the schema does not name is refused.
#[derive(Debug, PartialEq, Eq)]
pub struct Item<'a> {
    pub id: ItemId,
    pub name: String,
    pub item_type: String,
    pub data: Option<ItemData<'a>>,
    pub img: Option<String>,
    pub folder: Option<String>,
    pub effects: Option<&'a JsonValue>,
    pub sort: Option<&'a JsonValue>,
    pub permission: Option<&'a JsonValue>,
    pub flags: Option<&'a JsonValue>,
}

/// An item identifier written as a bare string.
pub open spec fn item_id_string_of(v: JsonValue) -> Result<ItemId, DecodeErrorView> {
    match string_of(v) {
        Ok(s) => Ok(ItemId { id: s }),
        Err(err) => Err(err),
    }
}

/// Decodes an item identifier written as a bare string.
pub fn deserialize_item_id(v: &JsonValue) -> (r: Result<ItemId, DecodeError>)
    ensures
        outcome(r) == item_id_string_of(*v),
{
    let id = decode_string(v)?;
    Ok(ItemId { id })
}

/// The fields of an object that holds an item identifier under `_id` or `itemId`.
pub open spec fn item_id_in(e: Seq<(String, JsonValue)>) -> Result<ItemId, DecodeErrorView> {
    match aliased(e, "_id"@, "itemId"@, |v: JsonValue| string_of(v)) {
        Ok(s) => match leftover(e, seq![alias_position(e, "_id"@, "itemId"@)]) {
            Ok(_) => Ok(ItemId { id: s }),
            Err(err) => Err(err),
        },
        Err(err) => Err(err),
    }
}

pub open spec fn item_id_of(v: JsonValue) -> Result<ItemId, DecodeErrorView> {
    match entries_of(v) {
        Ok(e) => item_id_in(e),
        Err(err) => Err(err),
    }
}

/// Decodes the identifier fields of an object that holds nothing else.
fn decode_item_id_entries(e: &Vec<(String, JsonValue)>, used: &mut Vec<Option<usize>>) -> (r: Result<ItemId, DecodeError>)
    requires
        old(used)@.len() == 0,
    ensures
        outcome(r) == item_id_in(e@),
{
    let id = aliased_string(e, "_id", "itemId", used)?;
    assert(used@ =~= seq![alias_position(e@, "_id"@, "itemId"@)]);
    reject_leftover(e, used)?;
    Ok(ItemId { id })
}

/// Decodes `{"_id": ...}` or `{"itemId": ...}`.
pub fn decode_item_id(v: &JsonValue) -> (r: Result<ItemId, DecodeError>)
    ensures
        outcome(r) == item_id_of(*v),
{
    let e = decode_entries(v)?;
    let mut used: Vec<Option<usize>> = Vec::new();
    decode_item_id_entries(e, &mut used)
}

pub open spec fn item_description_of(v: JsonValue) -> Result<ItemDescription, DecodeErrorView> {
    match entries_of(v) {
        Err(err) => Err(err),
        Ok(e) => item_description_in(e),
    }
}

pub open spec fn item_description_in(e: Seq<(String, JsonValue)>) -> Result<ItemDescription, DecodeErrorView> {
            let value = required(e, "value"@, |v: JsonValue| string_of(v));
            let chat = required(e, "chat"@, |v: JsonValue| string_of(v));
            let unidentified = required(e, "unidentified"@, |v: JsonValue| string_of(v));
            let used = seq![position_of(e, "value"@), position_of(e, "chat"@), position_of(e, "unidentified"@)];
            if value is Err {
                Err(value->Err_0)
            } else if chat is Err {
                Err(chat->Err_0)
            } else if unidentified is Err {
                Err(unidentified->Err_0)
            } else if leftover(e, used) is Err {
                Err(leftover(e, used)->Err_0)
            } else {
                Ok(ItemDescription { value: value->Ok_0, chat: chat->Ok_0, unidentified: unidentified->Ok_0 })
            }
}

pub fn decode_item_description(v: &JsonValue) -> (r: Result<ItemDescription, DecodeError>)
    ensures
        outcome(r) == item_description_of(*v),
{
    let e = decode_entries(v)?;
    let mut used: Vec<Option<usize>> = Vec::new();
    let value = required_string(e, "value", &mut used)?;
    let chat = required_string(e, "chat", &mut used)?;
    let unidentified = required_string(e, "unidentified", &mut used)?;
    assert(used@ =~= seq![position_of(e@, "value"@), position_of(e@, "chat"@), position_of(e@, "unidentified"@)]);
    reject_leftover(e, &used)?;
    Ok(ItemDescription { value, chat, unidentified })
}

pub open spec fn rarity_for(code: Seq<char>) -> Option<ItemRarity> {
    if code == "uncommon"@ {
        Some(ItemRarity::Uncommon)
    } else if code == "veryRare"@ {
        Some(ItemRarity::VeryRare)
    } else {
        None
    }
}

pub open spec fn rarity_of(v: JsonValue) -> Result<ItemRarity, DecodeErrorView> {
    match v {
        JsonValue::Str(s) => variant_of(rarity_for(s@), "rarity"@, s@),
        _ => Err(mismatch(JsonKind::Str, v)),
    }
}

pub fn decode_item_rarity(v: &JsonValue) -> (r: Result<ItemRarity, DecodeError>)
    ensures
        outcome(r) == rarity_of(*v),
{
    let s = decode_string(v)?;
    if text_is(&s, "uncommon") {
        Ok(ItemRarity::Uncommon)
    } else if text_is(&s, "veryRare") {
        Ok(ItemRarity::VeryRare)
    } else {
        Err(DecodeError::unknown_variant("rarity", &s))
    }
}

pub open spec fn activation_type_of(v: JsonValue) -> Result<ActivationType, DecodeErrorView> {
    match v {
        JsonValue::Str(s) => variant_of(
            if s@ == "action"@ { Some(ActivationType::Action) } else { None },
            "activation"@,
            s@,
        ),
        _ => Err(mismatch(JsonKind::Str, v)),
    }
}

pub fn decode_activation_type(v: &JsonValue) -> (r: Result<ActivationType, DecodeError>)
    ensures
        outcome(r) == activation_type_of(*v),
{
    let s = decode_string(v)?;
    if text_is(&s, "action") {
        Ok(ActivationType::Action)
    } else {
        Err(DecodeError::unknown_variant("activation", &s))
    }
}

pub open spec fn item_activation_of(v: JsonValue) -> Result<ItemActivation, DecodeErrorView> {
    match entries_of(v) {
        Err(err) => Err(err),
        Ok(e) => {
            let activation_type = required(e, "type"@, |v: JsonValue| activation_type_of(v));
            let cost = required(e, "cost"@, |v: JsonValue| u64_of(v));
            let condition = required(e, "condition"@, |v: JsonValue| string_of(v));
            let used = seq![position_of(e, "type"@), position_of(e, "cost"@), position_of(e, "condition"@)];
            if activation_type is Err {
                Err(activation_type->Err_0)
            } else if cost is Err {
                Err(cost->Err_0)
            } else if condition is Err {
                Err(condition->Err_0)
            } else if leftover(e, used) is Err {
                Err(leftover(e, used)->Err_0)
            } else {
                Ok(ItemActivation {
                    activation_type: activation_type->Ok_0,
                    cost: cost->Ok_0,
                    condition: condition->Ok_0,
                })
            }
        },
    }
}

pub fn decode_item_activation(v: &JsonValue) -> (r: Result<ItemActivation, DecodeError>)
    ensures
        outcome(r) == item_activation_of(*v),
{
    let e = decode_entries(v)?;
    let mut used: Vec<Option<usize>> = Vec::new();
    let activation_type = match take(e, "type", &mut used) {
        None => return Err(DecodeError::missing_field("type")),
        Some(x) => match decode_activation_type(x) {
            Ok(t) => t,
            Err(err) => return Err(err.within_key("type")),
        },
    };
    let cost = required_u64(e, "cost", &mut used)?;
    let condition = required_string(e, "condition", &mut used)?;
    assert(used@ =~= seq![position_of(e@, "type"@), position_of(e@, "cost"@), position_of(e@, "condition"@)]);
    reject_leftover(e, &used)?;
    Ok(ItemActivation { activation_type, cost, condition })
}

/// An ability field in which the empty string stands for no ability.
pub open spec fn sentinel_ability_of(v: JsonValue) -> Result<Option<Ability>, DecodeErrorView> {
    match v {
        JsonValue::Null => Ok(None),
        JsonValue::Str(s) => if s@.len() == 0 {
            Ok(None)
        } else {
            match ability_for(s@) {
                Some(a) => Ok(Some(a)),
                None => Err(fault(ErrorKindView::UnknownVariant { discriminator: "ability"@, value: s@ })),
            }
        },
        _ => Err(mismatch(JsonKind::Str, v)),
    }
}

/// Decodes an ability code, where `null` and the empty string both mean none.
pub fn empty_string_as_none(v: &JsonValue) -> (r: Result<Option<Ability>, DecodeError>)
    ensures
        outcome(r) == sentinel_ability_of(*v),
{
    match v {
        JsonValue::Null => Ok(None),
        JsonValue::Str(s) => if s.as_str().is_empty() {
            Ok(None)
        } else {
            match decode_ability_code(s) {
                Some(a) => Ok(Some(a)),
                None => Err(DecodeError::unknown_variant("ability", s)),
            }
        },
        _ => Err(DecodeError::type_mismatch(JsonKind::Str, v)),
    }
}

/// The keys of an item's data, in the order in which its fields are decoded.
pub open spec fn item_data_used(e: Seq<(String, JsonValue)>) -> Seq<Option<usize>> {
    seq![
        position_of(e, "description"@),
        position_of(e, "source"@),
        position_of(e, "quantity"@),
        position_of(e, "weight"@),
        position_of(e, "price"@),
        position_of(e, "attunement"@),
        position_of(e, "equipped"@),
        position_of(e, "rarity"@),
        position_of(e, "identified"@),
        position_of(e, "ability"@),
        position_of(e, "actionType"@),
        position_of(e, "attackBonus"@),
        position_of(e, "chatFlavor"@),
        position_of(e, "activation"@),
        position_of(e, "formula"@),
        position_of(e, "consumableType"@),
        position_of(e, "duration"@),
        position_of(e, "target"@),
        position_of(e, "range"@),
        position_of(e, "uses"@),
        position_of(e, "consume"@),
        position_of(e, "critical"@),
        position_of(e, "damage"@),
        position_of(e, "save"@),
        position_of(e, "attributes"@),
        position_of(e, "consumes"@),
        position_of(e, "charges"@),
        position_of(e, "autoUse"@),
        position_of(e, "autoDestroy"@),
    ]
}

/// The data that the fields of an item's data give, before stray keys are looked for.
pub open spec fn item_data_fields<'a>(e: Seq<(String, JsonValue)>) -> Result<ItemData<'a>, DecodeErrorView> {
    let description = required(e, "description"@, |v: JsonValue| item_description_of(v));
    let source = required(e, "source"@, |v: JsonValue| string_of(v));
    let quantity = required(e, "quantity"@, |v: JsonValue| u64_of(v));
    let weight = required(e, "weight"@, |v: JsonValue| u64_of(v));
    let price = optional(e, "price"@, |v: JsonValue| u64_of(v));
    let attunement = required(e, "attunement"@, |v: JsonValue| u64_of(v));
    let equipped = required(e, "equipped"@, |v: JsonValue| bool_of(v));
    let rarity = required(e, "rarity"@, |v: JsonValue| rarity_of(v));
    let identified = required(e, "identified"@, |v: JsonValue| bool_of(v));
    let ability = required(e, "ability"@, |v: JsonValue| sentinel_ability_of(v));
    let action_type = required(e, "actionType"@, |v: JsonValue| string_of(v));
    let attack_bonus = required(e, "attackBonus"@, |v: JsonValue| u64_of(v));
    let chat_flavor = required(e, "chatFlavor"@, |v: JsonValue| string_of(v));
    let activation = optional(e, "activation"@, |v: JsonValue| item_activation_of(v));
    let formula = optional(e, "formula"@, |v: JsonValue| string_of(v));
    let consumable_type = optional(e, "consumableType"@, |v: JsonValue| string_of(v));
    if description is Err {
        Err(description->Err_0)
    } else if source is Err {
        Err(source->Err_0)
    } else if quantity is Err {
        Err(quantity->Err_0)
    } else if weight is Err {
        Err(weight->Err_0)
    } else if price is Err {
        Err(price->Err_0)
    } else if attunement is Err {
        Err(attunement->Err_0)
    } else if equipped is Err {
        Err(equipped->Err_0)
    } else if rarity is Err {
        Err(rarity->Err_0)
    } else if identified is Err {
        Err(identified->Err_0)
    } else if ability is Err {
        Err(ability->Err_0)
    } else if action_type is Err {
        Err(action_type->Err_0)
    } else if attack_bonus is Err {
        Err(attack_bonus->Err_0)
    } else if chat_flavor is Err {
        Err(chat_flavor->Err_0)
    } else if activation is Err {
        Err(activation->Err_0)
    } else if formula is Err {
        Err(formula->Err_0)
    } else if consumable_type is Err {
        Err(consumable_type->Err_0)
    } else {
        Ok(ItemData {
            description: description->Ok_0,
            source: source->Ok_0,
            quantity: quantity->Ok_0,
            weight: weight->Ok_0,
            price: price->Ok_0,
            attunement: attunement->Ok_0,
            equipped: equipped->Ok_0,
            rarity: rarity->Ok_0,
            identified: identified->Ok_0,
            ability: ability->Ok_0,
            action_type: action_type->Ok_0,
            attack_bonus: attack_bonus->Ok_0,
            chat_flavor: chat_flavor->Ok_0,
            activation: activation->Ok_0,
            formula: formula->Ok_0,
            consumable_type: consumable_type->Ok_0,
            duration: raw_field(e, "duration"@),
            target: raw_field(e, "target"@),
            range: raw_field(e, "range"@),
            uses: raw_field(e, "uses"@),
            consume: raw_field(e, "consume"@),
            critical: raw_field(e, "critical"@),
            damage: raw_field(e, "damage"@),
            save: raw_field(e, "save"@),
            attributes: raw_field(e, "attributes"@),
            consumes: raw_field(e, "consumes"@),
            charges: raw_field(e, "charges"@),
            auto_use: raw_field(e, "autoUse"@),
            auto_destroy: raw_field(e, "autoDestroy"@),
        })
    }
}

pub open spec fn item_data_in<'a>(e: Seq<(String, JsonValue)>) -> Result<ItemData<'a>, DecodeErrorView> {
    match item_data_fields(e) {
        Ok(d) => finish(e, item_data_used(e), d),
        Err(err) => Err(err),
    }
}

pub open spec fn item_data_of<'a>(v: JsonValue) -> Result<ItemData<'a>, DecodeErrorView> {
    match entries_of(v) {
        Ok(e) => item_data_in(e),
        Err(err) => Err(err),
    }
}

fn description_field(e: &Vec<(String, JsonValue)>, used: &mut Vec<Option<usize>>) -> (r: Result<ItemDescription, DecodeError>)
    ensures
        final(used)@ == old(used)@.push(position_of(e@, "description"@)),
        outcome(r) == required(e@, "description"@, |v: JsonValue| item_description_of(v)),
{
    match take(e, "description", used) {
        None => Err(DecodeError::missing_field("description")),
        Some(x) => match decode_item_description(x) {
            Ok(d) => Ok(d),
            Err(err) => Err(err.within_key("description")),
        },
    }
}

fn rarity_field(e: &Vec<(String, JsonValue)>, used: &mut Vec<Option<usize>>) -> (r: Result<ItemRarity, DecodeError>)
    ensures
        final(used)@ == old(used)@.push(position_of(e@, "rarity"@)),
        outcome(r) == required(e@, "rarity"@, |v: JsonValue| rarity_of(v)),
{
    match take(e, "rarity", used) {
        None => Err(DecodeError::missing_field("rarity")),
        Some(x) => match decode_item_rarity(x) {
            Ok(d) => Ok(d),
            Err(err) => Err(err.within_key("rarity")),
        },
    }
}

fn ability_field(e: &Vec<(String, JsonValue)>, used: &mut Vec<Option<usize>>) -> (r: Result<Option<Ability>, DecodeError>)
    ensures
        final(used)@ == old(used)@.push(position_of(e@, "ability"@)),
        outcome(r) == required(e@, "ability"@, |v: JsonValue| sentinel_ability_of(v)),
{
    match take(e, "ability", used) {
        None => Err(DecodeError::missing_field("ability")),
        Some(x) => match empty_string_as_none(x) {
            Ok(d) => Ok(d),
            Err(err) => Err(err.within_key("ability")),
        },
    }
}

fn activation_field(e: &Vec<(String, JsonValue)>, used: &mut Vec<Option<usize>>) -> (r: Result<Option<ItemActivation>, DecodeError>)
    ensures
        final(used)@ == old(used)@.push(position_of(e@, "activation"@)),
        outcome(r) == optional(e@, "activation"@, |v: JsonValue| item_activation_of(v)),
{
    match take(e, "activation", used) {
        None => Ok(None),
        Some(JsonValue::Null) => Ok(None),
        Some(x) => match decode_item_activation(x) {
            Ok(a) => Ok(Some(a)),
            Err(err) => Err(err.within_key("activation")),
        },
    }
}

#[verifier::rlimit(100)]
fn decode_item_data_fields<'a>(e: &'a Vec<(String, JsonValue)>, used: &mut Vec<Option<usize>>) -> (r: Result<ItemData<'a>, DecodeError>)
    requires
        old(used)@.len() == 0,
    ensures
        outcome(r) == item_data_fields(e@),
        r is Ok ==> final(used)@ == item_data_used(e@),
{
    let description = description_field(e, used)?;
    let source = required_string(e, "source", used)?;
    let quantity = required_u64(e, "quantity", used)?;
    let weight = required_u64(e, "weight", used)?;
    let price = optional_u64(e, "price", used)?;
    let attunement = required_u64(e, "attunement", used)?;
    let equipped = required_bool(e, "equipped", used)?;
    let rarity = rarity_field(e, used)?;
    let identified = required_bool(e, "identified", used)?;
    let ability = ability_field(e, used)?;
    let action_type = required_string(e, "actionType", used)?;
    let attack_bonus = required_u64(e, "attackBonus", used)?;
    let chat_flavor = required_string(e, "chatFlavor", used)?;
    let activation = activation_field(e, used)?;
    let formula = optional_string(e, "formula", used)?;
    let consumable_type = optional_string(e, "consumableType", used)?;
    let duration = take(e, "duration", used);
    let target = take(e, "target", used);
    let range = take(e, "range", used);
    let uses = take(e, "uses", used);
    let consume = take(e, "consume", used);
    let critical = take(e, "critical", used);
    let damage = take(e, "damage", used);
    let save = take(e, "save", used);
    let attributes = take(e, "attributes", used);
    let consumes = take(e, "consumes", used);
    let charges = take(e, "charges", used);
    let auto_use = take(e, "autoUse", used);
    let auto_destroy = take(e, "autoDestroy", used);
    assert(used@ =~= item_data_used(e@));
    Ok(ItemData {
        description,
        source,
        quantity,
        weight,
        price,
        attunement,
        equipped,
        rarity,
        identified,
        ability,
        action_type,
        attack_bonus,
        chat_flavor,
        activation,
        formula,
        consumable_type,
        duration,
        target,
        range,
        uses,
        consume,
        critical,
        damage,
        save,
        attributes,
        consumes,
        charges,
        auto_use,
        auto_destroy,
    })
}

pub fn decode_item_data<'a>(v: &'a JsonValue) -> (r: Result<ItemData<'a>, DecodeError>)
    ensures
        outcome(r) == item_data_of(*v),
{
    let e = decode_entries(v)?;
    let mut used: Vec<Option<usize>> = Vec::new();
    let data = decode_item_data_fields(e, &mut used)?;
    reject_leftover(e, &used)?;
    Ok(data)
}

/// The keys of an item, in the order in which its fields are decoded.
pub open spec fn item_used(e: Seq<(String, JsonValue)>) -> Seq<Option<usize>> {
    seq![
        alias_position(e, "_id"@, "itemId"@),
        position_of(e, "name"@),
        position_of(e, "type"@),
        position_of(e, "data"@),
        position_of(e, "img"@),
        position_of(e, "folder"@),
        position_of(e, "effects"@),
        position_of(e, "sort"@),
        position_of(e, "permission"@),
        position_of(e, "flags"@),
    ]
}

pub open spec fn item_in<'a>(e: Seq<(String, JsonValue)>) -> Result<Item<'a>, DecodeErrorView> {
    let id = aliased(e, "_id"@, "itemId"@, |v: JsonValue| string_of(v));
    let name = required(e, "name"@, |v: JsonValue| string_of(v));
    let item_type = required(e, "type"@, |v: JsonValue| string_of(v));
    let data = optional(e, "data"@, |v: JsonValue| item_data_of(v));
    let img = optional(e, "img"@, |v: JsonValue| string_of(v));
    let folder = optional(e, "folder"@, |v: JsonValue| string_of(v));
    if id is Err {
        Err(id->Err_0)
    } else if name is Err {
        Err(name->Err_0)
    } else if item_type is Err {
        Err(item_type->Err_0)
    } else if data is Err {
        Err(data->Err_0)
    } else if img is Err {
        Err(img->Err_0)
    } else if folder is Err {
        Err(folder->Err_0)
    } else {
        finish(e, item_used(e), Item {
            id: ItemId { id: id->Ok_0 },
            name: name->Ok_0,
            item_type: item_type->Ok_0,
            data: data->Ok_0,
            img: img->Ok_0,
            folder: folder->Ok_0,
            effects: raw_field(e, "effects"@),
            sort: raw_field(e, "sort"@),
            permission: raw_field(e, "permission"@),
            flags: raw_field(e, "flags"@),
        })
    }
}

pub open spec fn item_of<'a>(v: JsonValue) -> Result<Item<'a>, DecodeErrorView> {
    match entries_of(v) {
        Ok(e) => item_in(e),
        Err(err) => Err(err),
    }
}

/// Decodes an item record.
pub fn decode_item<'a>(v: &'a JsonValue) -> (r: Result<Item<'a>, DecodeError>)
    ensures
        outcome(r) == item_of(*v),
{
    let e = decode_entries(v)?;
    let mut used: Vec<Option<usize>> = Vec::new();
    let id = aliased_string(e, "_id", "itemId", &mut used)?;
    let name = required_string(e, "name", &mut used)?;
    let item_type = required_string(e, "type", &mut used)?;
    let data = match take(e, "data", &mut used) {
        None => None,
        Some(JsonValue::Null) => None,
        Some(x) => match decode_item_data(x) {
            Ok(d) => Some(d),
            Err(err) => return Err(err.within_key("data")),
        },
    };
    let img = optional_string(e, "img", &mut used)?;
    let folder = optional_string(e, "folder", &mut used)?;
    let effects = take(e, "effects", &mut used);
    let sort = take(e, "sort", &mut used);
    let permission = take(e, "permission", &mut used);
    let flags = take(e, "flags", &mut used);
    assert(used@ =~= item_used(e@));
    reject_leftover(e, &used)?;
    Ok(Item { id: ItemId { id }, name, item_type, data, img, folder, effects, sort, permission, flags })
}

} // verus!
