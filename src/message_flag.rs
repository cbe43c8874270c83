//! Flags that modules attach to a message, keyed by namespace.
use vstd::prelude::*;

use crate::error::{
    DecodeError, DecodeErrorView, ErrorKind, ErrorKindView, StepView, fault, mismatch,
    outcome, outcome_view, within,
};
use crate::fields::{
    alias_position, aliased, aliased_string, all_of, bool_of, bool_or_false, decode_entries,
    decode_string, defaulted, entries_of, finish, leftover, lemma_all_of_err, lemma_all_of_ok,
    reject_leftover, required, required_string, string_of, string_or_empty, take, text_of,
    variant_of,
};
use crate::item::{Item, ItemId, decode_item, item_of};
use crate::json::{JsonKind, JsonValue, find_either, position_of, position_of_either, text_is};

verus! {

#[derive(Debug, Clone, Copy, PartialEq, Eq, Structural)]
pub enum Ability {
    Strength,
    Dexterity,
    Constitution,
    Intelligence,
    Wisdom,
    Charisma,
}

pub open spec fn ability_code(a: Ability) -> Seq<char> {
    match a {
        Ability::Strength => "str"@,
        Ability::Dexterity => "dex"@,
        Ability::Constitution => "con"@,
        Ability::Intelligence => "int"@,
        Ability::Wisdom => "wis"@,
        Ability::Charisma => "cha"@,
    }
}

pub open spec fn ability_for(code: Seq<char>) -> Option<Ability> {
    if code == "str"@ {
        Some(Ability::Strength)
    } else if code == "dex"@ {
        Some(Ability::Dexterity)
    } else if code == "con"@ {
        Some(Ability::Constitution)
    } else if code == "int"@ {
        Some(Ability::Intelligence)
    } else if code == "wis"@ {
        Some(Ability::Wisdom)
    } else if code == "cha"@ {
        Some(Ability::Charisma)
    } else {
        None
    }
}

pub open spec fn ability_of(v: JsonValue) -> Result<Ability, DecodeErrorView> {
    match v {
        JsonValue::Str(s) => variant_of(ability_for(s@), "ability"@, s@),
        _ => Err(mismatch(JsonKind::Str, v)),
    }
}

/// The ability that a three-letter code names.
pub fn decode_ability_code(code: &String) -> (r: Option<Ability>)
    ensures
        r == ability_for(code@),
{
    if text_is(code, "str") {
        Some(Ability::Strength)
    } else if text_is(code, "dex") {
        Some(Ability::Dexterity)
    } else if text_is(code, "con") {
        Some(Ability::Constitution)
    } else if text_is(code, "int") {
        Some(Ability::Intelligence)
    } else if text_is(code, "wis") {
        Some(Ability::Wisdom)
    } else if text_is(code, "cha") {
        Some(Ability::Charisma)
    } else {
        None
    }
}

/// Decodes an ability written as its three-letter code.
pub fn decode_ability(v: &JsonValue) -> (r: Result<Ability, DecodeError>)
    ensures
        outcome(r) == ability_of(*v),
{
    let s = decode_string(v)?;
    match decode_ability_code(&s) {
        Some(a) => Ok(a),
        None => Err(DecodeError::unknown_variant("ability", &s)),
    }
}

/// The ability behind a saving throw, or a saving throw against death.
#[derive(Debug, Clone, Copy, PartialEq, Eq, Structural)]
pub enum SaveType {
    Strength,
    Dexterity,
    Constitution,
    Intelligence,
    Wisdom,
    Charisma,
    Death,
}

pub open spec fn save_type_code(a: SaveType) -> Seq<char> {
    match a {
        SaveType::Strength => "str"@,
        SaveType::Dexterity => "dex"@,
        SaveType::Constitution => "con"@,
        SaveType::Intelligence => "int"@,
        SaveType::Wisdom => "wis"@,
        SaveType::Charisma => "cha"@,
        SaveType::Death => "death"@,
    }
}

pub open spec fn save_type_for(code: Seq<char>) -> Option<SaveType> {
    if code == "str"@ {
        Some(SaveType::Strength)
    } else if code == "dex"@ {
        Some(SaveType::Dexterity)
    } else if code == "con"@ {
        Some(SaveType::Constitution)
    } else if code == "int"@ {
        Some(SaveType::Intelligence)
    } else if code == "wis"@ {
        Some(SaveType::Wisdom)
    } else if code == "cha"@ {
        Some(SaveType::Charisma)
    } else if code == "death"@ {
        Some(SaveType::Death)
    } else {
        None
    }
}

pub open spec fn save_type_of(v: JsonValue) -> Result<SaveType, DecodeErrorView> {
    match v {
        JsonValue::Str(s) => variant_of(save_type_for(s@), "save"@, s@),
        _ => Err(mismatch(JsonKind::Str, v)),
    }
}

/// Decodes the subject of a saving throw, written as its code.
pub fn decode_save_type(v: &JsonValue) -> (r: Result<SaveType, DecodeError>)
    ensures
        outcome(r) == save_type_of(*v),
{
    let s = decode_string(v)?;
    if text_is(&s, "str") {
        Ok(SaveType::Strength)
    } else if text_is(&s, "dex") {
        Ok(SaveType::Dexterity)
    } else if text_is(&s, "con") {
        Ok(SaveType::Constitution)
    } else if text_is(&s, "int") {
        Ok(SaveType::Intelligence)
    } else if text_is(&s, "wis") {
        Ok(SaveType::Wisdom)
    } else if text_is(&s, "cha") {
        Ok(SaveType::Charisma)
    } else if text_is(&s, "death") {
        Ok(SaveType::Death)
    } else {
        Err(DecodeError::unknown_variant("save", &s))
    }
}

#[derive(Debug, Clone, Copy, PartialEq, Eq, Structural)]
pub enum Skill {
    AnimalHandling,
    Acrobatics,
    Arcana,
    Athletics,
    Deception,
    History,
    Insight,
    Intimidation,
    Investigation,
    Medicine,
    Nature,
    Performance,
    Perception,
    Persuasion,
    Religion,
    SleightOfHand,
    Stealth,
    Survival,
}

pub open spec fn skill_code(s: Skill) -> Seq<char> {
    match s {
        Skill::AnimalHandling => "ani"@,
        Skill::Acrobatics => "acr"@,
        Skill::Arcana => "arc"@,
        Skill::Athletics => "ath"@,
        Skill::Deception => "dec"@,
        Skill::History => "his"@,
        Skill::Insight => "ins"@,
        Skill::Intimidation => "itm"@,
        Skill::Investigation => "inv"@,
        Skill::Medicine => "med"@,
        Skill::Nature => "nat"@,
        Skill::Performance => "prf"@,
        Skill::Perception => "prc"@,
        Skill::Persuasion => "per"@,
        Skill::Religion => "rel"@,
        Skill::SleightOfHand => "slt"@,
        Skill::Stealth => "ste"@,
        Skill::Survival => "sur"@,
    }
}

pub open spec fn skill_for(code: Seq<char>) -> Option<Skill> {
    if code == "ani"@ {
        Some(Skill::AnimalHandling)
    } else if code == "acr"@ {
        Some(Skill::Acrobatics)
    } else if code == "arc"@ {
        Some(Skill::Arcana)
    } else if code == "ath"@ {
        Some(Skill::Athletics)
    } else if code == "dec"@ {
        Some(Skill::Deception)
    } else if code == "his"@ {
        Some(Skill::History)
    } else if code == "ins"@ {
        Some(Skill::Insight)
    } else if code == "itm"@ {
        Some(Skill::Intimidation)
    } else if code == "inv"@ {
        Some(Skill::Investigation)
    } else if code == "med"@ {
        Some(Skill::Medicine)
    } else if code == "nat"@ {
        Some(Skill::Nature)
    } else if code == "prf"@ {
        Some(Skill::Performance)
    } else if code == "prc"@ {
        Some(Skill::Perception)
    } else if code == "per"@ {
        Some(Skill::Persuasion)
    } else if code == "rel"@ {
        Some(Skill::Religion)
    } else if code == "slt"@ {
        Some(Skill::SleightOfHand)
    } else if code == "ste"@ {
        Some(Skill::Stealth)
    } else if code == "sur"@ {
        Some(Skill::Survival)
    } else {
        None
    }
}

pub open spec fn skill_code_of(v: JsonValue) -> Result<Skill, DecodeErrorView> {
    match v {
        JsonValue::Str(s) => variant_of(skill_for(s@), "skillId"@, s@),
        _ => Err(mismatch(JsonKind::Str, v)),
    }
}

/// Decodes a skill written as its three-letter code.
pub fn decode_skill_code(v: &JsonValue) -> (r: Result<Skill, DecodeError>)
    ensures
        outcome(r) == skill_code_of(*v),
{
    let s = decode_string(v)?;
    if text_is(&s, "ani") {
        Ok(Skill::AnimalHandling)
    } else if text_is(&s, "acr") {
        Ok(Skill::Acrobatics)
    } else if text_is(&s, "arc") {
        Ok(Skill::Arcana)
    } else if text_is(&s, "ath") {
        Ok(Skill::Athletics)
    } else if text_is(&s, "dec") {
        Ok(Skill::Deception)
    } else if text_is(&s, "his") {
        Ok(Skill::History)
    } else if text_is(&s, "ins") {
        Ok(Skill::Insight)
    } else if text_is(&s, "itm") {
        Ok(Skill::Intimidation)
    } else if text_is(&s, "inv") {
        Ok(Skill::Investigation)
    } else if text_is(&s, "med") {
        Ok(Skill::Medicine)
    } else if text_is(&s, "nat") {
        Ok(Skill::Nature)
    } else if text_is(&s, "prf") {
        Ok(Skill::Performance)
    } else if text_is(&s, "prc") {
        Ok(Skill::Perception)
    } else if text_is(&s, "per") {
        Ok(Skill::Persuasion)
    } else if text_is(&s, "rel") {
        Ok(Skill::Religion)
    } else if text_is(&s, "slt") {
        Ok(Skill::SleightOfHand)
    } else if text_is(&s, "ste") {
        Ok(Skill::Stealth)
    } else if text_is(&s, "sur") {
        Ok(Skill::Survival)
    } else {
        Err(DecodeError::unknown_variant("skillId", &s))
    }
}

/// A skill tagged by `skillId`, in an object that holds nothing else.
pub open spec fn skill_of(v: JsonValue) -> Result<Skill, DecodeErrorView> {
    match entries_of(v) {
        Err(err) => Err(err),
        Ok(e) => match required(e, "skillId"@, |v: JsonValue| skill_code_of(v)) {
            Err(err) => Err(err),
            Ok(s) => finish(e, seq![position_of(e, "skillId"@)], s),
        },
    }
}

/// Decodes `{"skillId": code}`.
pub fn decode_skill(v: &JsonValue) -> (r: Result<Skill, DecodeError>)
    ensures
        outcome(r) == skill_of(*v),
{
    let e = decode_entries(v)?;
    let mut used: Vec<Option<usize>> = Vec::new();
    let skill = match take(e, "skillId", &mut used) {
        None => return Err(DecodeError::missing_field("skillId")),
        Some(x) => match decode_skill_code(x) {
            Ok(s) => s,
            Err(err) => return Err(err.within_key("skillId")),
        },
    };
    assert(used@ =~= seq![position_of(e@, "skillId"@)]);
    reject_leftover(e, &used)?;
    Ok(skill)
}

/// The kind of roll that a message reports.
#[derive(Debug, PartialEq, Eq)]
#[allow(inconsistent_fields)]
pub enum RollType {
    SavingThrow { ability: SaveType },
    AbilityCheck { ability: Ability },
    SkillCheck(Skill),
    Attack(ItemId),
    HitDie,
    Damage { item_id: ItemId, versatile: bool },
    HitPoints,
    Death,
}

pub open spec fn save_roll_in(e: Seq<(String, JsonValue)>) -> Result<RollType, DecodeErrorView> {
    match required(e, "abilityId"@, |v: JsonValue| save_type_of(v)) {
        Err(err) => Err(err),
        Ok(a) => finish(
            e,
            seq![position_of(e, "type"@), position_of(e, "abilityId"@)],
            RollType::SavingThrow { ability: a },
        ),
    }
}

pub open spec fn ability_roll_in(e: Seq<(String, JsonValue)>) -> Result<RollType, DecodeErrorView> {
    match required(e, "abilityId"@, |v: JsonValue| ability_of(v)) {
        Err(err) => Err(err),
        Ok(a) => finish(
            e,
            seq![position_of(e, "type"@), position_of(e, "abilityId"@)],
            RollType::AbilityCheck { ability: a },
        ),
    }
}

pub open spec fn skill_roll_in(e: Seq<(String, JsonValue)>) -> Result<RollType, DecodeErrorView> {
    match required(e, "skillId"@, |v: JsonValue| skill_code_of(v)) {
        Err(err) => Err(err),
        Ok(k) => finish(
            e,
            seq![position_of(e, "type"@), position_of(e, "skillId"@)],
            RollType::SkillCheck(k),
        ),
    }
}

pub open spec fn attack_roll_in(e: Seq<(String, JsonValue)>) -> Result<RollType, DecodeErrorView> {
    match aliased(e, "_id"@, "itemId"@, |v: JsonValue| string_of(v)) {
        Err(err) => Err(err),
        Ok(id) => finish(
            e,
            seq![position_of(e, "type"@), alias_position(e, "_id"@, "itemId"@)],
            RollType::Attack(ItemId { id }),
        ),
    }
}

pub open spec fn damage_roll_in(e: Seq<(String, JsonValue)>) -> Result<RollType, DecodeErrorView> {
    let id = aliased(e, "_id"@, "itemId"@, |v: JsonValue| string_of(v));
    let versatile = defaulted(e, "versatile"@, |v: JsonValue| bool_of(v), false);
    if id is Err {
        Err(id->Err_0)
    } else if versatile is Err {
        Err(versatile->Err_0)
    } else {
        finish(
            e,
            seq![position_of(e, "type"@), alias_position(e, "_id"@, "itemId"@), position_of(e, "versatile"@)],
            RollType::Damage { item_id: ItemId { id: id->Ok_0 }, versatile: versatile->Ok_0 },
        )
    }
}

/// The roll that the entries of a payload tagged `t` under `type` describe.
pub open spec fn roll_variant_in(e: Seq<(String, JsonValue)>, t: Seq<char>) -> Result<RollType, DecodeErrorView> {
    if t == "save"@ {
        save_roll_in(e)
    } else if t == "ability"@ {
        ability_roll_in(e)
    } else if t == "skill"@ {
        skill_roll_in(e)
    } else if t == "attack"@ {
        attack_roll_in(e)
    } else if t == "damage"@ {
        damage_roll_in(e)
    } else if t == "hitDie"@ {
        finish(e, seq![position_of(e, "type"@)], RollType::HitDie)
    } else if t == "hitPoints"@ {
        finish(e, seq![position_of(e, "type"@)], RollType::HitPoints)
    } else if t == "death"@ {
        finish(e, seq![position_of(e, "type"@)], RollType::Death)
    } else {
        Err(within(StepView::Key("type"@), fault(ErrorKindView::UnknownVariant { discriminator: "type"@, value: t })))
    }
}

pub open spec fn roll_type_in(e: Seq<(String, JsonValue)>) -> Result<RollType, DecodeErrorView> {
    match required(e, "type"@, |v: JsonValue| string_of(v)) {
        Err(err) => Err(err),
        Ok(t) => roll_variant_in(e, t@),
    }
}

pub open spec fn roll_type_of(v: JsonValue) -> Result<RollType, DecodeErrorView> {
    match entries_of(v) {
        Ok(e) => roll_type_in(e),
        Err(err) => Err(err),
    }
}

/// Decodes the rest of a payload tagged with a roll against one ability.
fn decode_ability_roll(e: &Vec<(String, JsonValue)>, save: bool, used: &mut Vec<Option<usize>>) -> (r: Result<RollType, DecodeError>)
    requires
        old(used)@ == seq![position_of(e@, "type"@)],
    ensures
        outcome(r) == if save { save_roll_in(e@) } else { ability_roll_in(e@) },
{
    match take(e, "abilityId", used) {
        None => Err(DecodeError::missing_field("abilityId")),
        Some(x) => {
            assert(used@ =~= seq![position_of(e@, "type"@), position_of(e@, "abilityId"@)]);
            if save {
                let ability = match decode_save_type(x) {
                    Ok(a) => a,
                    Err(err) => return Err(err.within_key("abilityId")),
                };
                reject_leftover(e, used)?;
                Ok(RollType::SavingThrow { ability })
            } else {
                let ability = match decode_ability(x) {
                    Ok(a) => a,
                    Err(err) => return Err(err.within_key("abilityId")),
                };
                reject_leftover(e, used)?;
                Ok(RollType::AbilityCheck { ability })
            }
        },
    }
}

fn decode_skill_roll(e: &Vec<(String, JsonValue)>, used: &mut Vec<Option<usize>>) -> (r: Result<RollType, DecodeError>)
    requires
        old(used)@ == seq![position_of(e@, "type"@)],
    ensures
        outcome(r) == skill_roll_in(e@),
{
    let skill = match take(e, "skillId", used) {
        None => return Err(DecodeError::missing_field("skillId")),
        Some(x) => match decode_skill_code(x) {
            Ok(k) => k,
            Err(err) => return Err(err.within_key("skillId")),
        },
    };
    assert(used@ =~= seq![position_of(e@, "type"@), position_of(e@, "skillId"@)]);
    reject_leftover(e, used)?;
    Ok(RollType::SkillCheck(skill))
}

/// Decodes the rest of a payload tagged with a roll made with an item.
fn decode_item_roll(e: &Vec<(String, JsonValue)>, attack: bool, used: &mut Vec<Option<usize>>) -> (r: Result<RollType, DecodeError>)
    requires
        old(used)@ == seq![position_of(e@, "type"@)],
    ensures
        outcome(r) == if attack { attack_roll_in(e@) } else { damage_roll_in(e@) },
{
    let id = aliased_string(e, "_id", "itemId", used)?;
    if attack {
        assert(used@ =~= seq![position_of(e@, "type"@), alias_position(e@, "_id"@, "itemId"@)]);
        reject_leftover(e, used)?;
        Ok(RollType::Attack(ItemId { id }))
    } else {
        let versatile = bool_or_false(e, "versatile", used)?;
        assert(used@ =~= seq![
            position_of(e@, "type"@),
            alias_position(e@, "_id"@, "itemId"@),
            position_of(e@, "versatile"@),
        ]);
        reject_leftover(e, used)?;
        Ok(RollType::Damage { item_id: ItemId { id }, versatile })
    }
}

/// Decodes a roll payload: its `type` tag selects the variant, and no other
/// key than the variant's own may stand beside it.
pub fn decode_roll_type(v: &JsonValue) -> (r: Result<RollType, DecodeError>)
    ensures
        outcome(r) == roll_type_of(*v),
{
    let e = decode_entries(v)?;
    let mut used: Vec<Option<usize>> = Vec::new();
    let t = required_string(e, "type", &mut used)?;
    assert(used@ =~= seq![position_of(e@, "type"@)]);
    if text_is(&t, "save") {
        decode_ability_roll(e, true, &mut used)
    } else if text_is(&t, "ability") {
        decode_ability_roll(e, false, &mut used)
    } else if text_is(&t, "skill") {
        decode_skill_roll(e, &mut used)
    } else if text_is(&t, "attack") {
        decode_item_roll(e, true, &mut used)
    } else if text_is(&t, "damage") {
        decode_item_roll(e, false, &mut used)
    } else if text_is(&t, "hitDie") {
        reject_leftover(e, &used)?;
        Ok(RollType::HitDie)
    } else if text_is(&t, "hitPoints") {
        reject_leftover(e, &used)?;
        Ok(RollType::HitPoints)
    } else if text_is(&t, "death") {
        reject_leftover(e, &used)?;
        Ok(RollType::Death)
    } else {
        Err(DecodeError::unknown_variant("type", &t).within_key("type"))
    }
}

/// What the `dnd5e` system records on a message.
#[derive(Debug, PartialEq, Eq)]
pub enum Dnd5eFlag<'a> {
    Roll(RollType),
    ItemData(Item<'a>),
}

/// Checks that an object holds no other key than the one at `i`.
fn reject_all_but(e: &Vec<(String, JsonValue)>, i: usize) -> (r: Result<(), DecodeError>)
    ensures
        outcome(r) == leftover(e@, seq![Some(i)]),
{
    let mut used: Vec<Option<usize>> = Vec::new();
    used.push(Some(i));
    assert(used@ =~= seq![Some(i)]);
    reject_leftover(e, &used)
}

/// A `dnd5e` payload: the first key that names a variant, `roll` or
/// `itemData`, selects it; any other key is an unknown field.
pub open spec fn dnd5e_of<'a>(v: JsonValue) -> Result<Dnd5eFlag<'a>, DecodeErrorView> {
    match entries_of(v) {
        Err(err) => Err(err),
        Ok(e) => if e.len() == 0 {
            Err(fault(ErrorKindView::MissingVariant { discriminator: "dnd5e"@ }))
        } else {
            match position_of_either(e, "roll"@, "itemData"@) {
                None => Err(fault(ErrorKindView::UnknownVariant { discriminator: "dnd5e"@, value: e[0].0@ })),
                Some(i) => if e[i as int].0@ == "roll"@ {
                    match roll_type_of(e[i as int].1) {
                        Ok(r) => finish(e, seq![Some(i)], Dnd5eFlag::Roll(r)),
                        Err(err) => Err(within(StepView::Key("roll"@), err)),
                    }
                } else {
                    match item_of(e[i as int].1) {
                        Ok(d) => finish(e, seq![Some(i)], Dnd5eFlag::ItemData(d)),
                        Err(err) => Err(within(StepView::Key("itemData"@), err)),
                    }
                },
            }
        },
    }
}

pub fn decode_dnd5e_flag<'a>(v: &'a JsonValue) -> (r: Result<Dnd5eFlag<'a>, DecodeError>)
    ensures
        outcome(r) == dnd5e_of(*v),
{
    let e = decode_entries(v)?;
    if e.len() == 0 {
        return Err(DecodeError::new(ErrorKind::MissingVariant { discriminator: "dnd5e".to_owned() }));
    }
    match find_either(e, "roll", "itemData") {
        None => Err(DecodeError::unknown_variant("dnd5e", &e[0].0)),
        Some(i) => if text_is(&e[i].0, "roll") {
            match decode_roll_type(&e[i].1) {
                Ok(r) => {
                    reject_all_but(e, i)?;
                    Ok(Dnd5eFlag::Roll(r))
                },
                Err(err) => Err(err.within_key("roll")),
            }
        } else {
            match decode_item(&e[i].1) {
                Ok(d) => {
                    reject_all_but(e, i)?;
                    Ok(Dnd5eFlag::ItemData(d))
                },
                Err(err) => Err(err.within_key("itemData")),
            }
        },
    }
}

/// What the core application records on a message; every field is optional.
#[derive(Debug, PartialEq, Eq)]
pub struct CoreFlag {
    pub can_popout: bool,
    pub initiative_roll: bool,
    pub roll_table: String,
}

pub struct CoreFlagView {
    pub can_popout: bool,
    pub initiative_roll: bool,
    pub roll_table: Seq<char>,
}

impl View for CoreFlag {
    type V = CoreFlagView;

    open spec fn view(&self) -> CoreFlagView {
        CoreFlagView { can_popout: self.can_popout, initiative_roll: self.initiative_roll, roll_table: self.roll_table@ }
    }
}

pub open spec fn core_flag_of(v: JsonValue) -> Result<CoreFlagView, DecodeErrorView> {
    match entries_of(v) {
        Err(err) => Err(err),
        Ok(e) => core_flag_in(e),
    }
}

pub open spec fn core_flag_in(e: Seq<(String, JsonValue)>) -> Result<CoreFlagView, DecodeErrorView> {
            let can_popout = defaulted(e, "canPopout"@, |v: JsonValue| bool_of(v), false);
            let initiative_roll = defaulted(e, "initiativeRoll"@, |v: JsonValue| bool_of(v), false);
            let roll_table = defaulted(e, "RollTable"@, |v: JsonValue| text_of(v), Seq::empty());
            let used = seq![position_of(e, "canPopout"@), position_of(e, "initiativeRoll"@), position_of(e, "RollTable"@)];
            if can_popout is Err {
                Err(can_popout->Err_0)
            } else if initiative_roll is Err {
                Err(initiative_roll->Err_0)
            } else if roll_table is Err {
                Err(roll_table->Err_0)
            } else {
                finish(e, used, CoreFlagView {
                    can_popout: can_popout->Ok_0,
                    initiative_roll: initiative_roll->Ok_0,
                    roll_table: roll_table->Ok_0,
                })
            }
}

pub fn decode_core_flag(v: &JsonValue) -> (r: Result<CoreFlag, DecodeError>)
    ensures
        outcome_view(r) == core_flag_of(*v),
{
    let e = decode_entries(v)?;
    let mut used: Vec<Option<usize>> = Vec::new();
    let can_popout = bool_or_false(e, "canPopout", &mut used)?;
    let initiative_roll = bool_or_false(e, "initiativeRoll", &mut used)?;
    let roll_table = string_or_empty(e, "RollTable", &mut used)?;
    assert(used@ =~= seq![position_of(e@, "canPopout"@), position_of(e@, "initiativeRoll"@), position_of(e@, "RollTable"@)]);
    reject_leftover(e, &used)?;
    Ok(CoreFlag { can_popout, initiative_roll, roll_table })
}

/// The language in which a message was spoken.
#[derive(Debug, PartialEq, Eq)]
pub struct PolyglotFlag {
    pub language: String,
}

pub open spec fn polyglot_flag_of(v: JsonValue) -> Result<PolyglotFlag, DecodeErrorView> {
    match entries_of(v) {
        Err(err) => Err(err),
        Ok(e) => polyglot_flag_in(e),
    }
}

pub open spec fn polyglot_flag_in(e: Seq<(String, JsonValue)>) -> Result<PolyglotFlag, DecodeErrorView> {
    match required(e, "language"@, |v: JsonValue| string_of(v)) {
        Err(err) => Err(err),
        Ok(language) => finish(e, seq![position_of(e, "language"@)], PolyglotFlag { language }),
    }
}

pub fn decode_polyglot_flag(v: &JsonValue) -> (r: Result<PolyglotFlag, DecodeError>)
    ensures
        outcome(r) == polyglot_flag_of(*v),
{
    let e = decode_entries(v)?;
    let mut used: Vec<Option<usize>> = Vec::new();
    let language = required_string(e, "language", &mut used)?;
    assert(used@ =~= seq![position_of(e@, "language"@)]);
    reject_leftover(e, &used)?;
    Ok(PolyglotFlag { language })
}

#[derive(Debug, Clone, Copy, PartialEq, Eq, Structural)]
pub enum MonksLittleDetailsFlag {
    RoundMarker(bool),
}

/// A payload whose `roundmarker` key selects the variant; any other key is
/// an unknown field.
pub open spec fn monks_flag_of(v: JsonValue) -> Result<MonksLittleDetailsFlag, DecodeErrorView> {
    match entries_of(v) {
        Err(err) => Err(err),
        Ok(e) => if e.len() == 0 {
            Err(fault(ErrorKindView::MissingVariant { discriminator: "monks-little-details"@ }))
        } else {
            match position_of(e, "roundmarker"@) {
                None => Err(
                    fault(ErrorKindView::UnknownVariant { discriminator: "monks-little-details"@, value: e[0].0@ }),
                ),
                Some(i) => match bool_of(e[i as int].1) {
                    Ok(b) => finish(e, seq![Some(i)], MonksLittleDetailsFlag::RoundMarker(b)),
                    Err(err) => Err(within(StepView::Key("roundmarker"@), err)),
                },
            }
        },
    }
}

pub fn decode_monks_little_details_flag(v: &JsonValue) -> (r: Result<MonksLittleDetailsFlag, DecodeError>)
    ensures
        outcome(r) == monks_flag_of(*v),
{
    let e = decode_entries(v)?;
    if e.len() == 0 {
        return Err(DecodeError::new(ErrorKind::MissingVariant { discriminator: "monks-little-details".to_owned() }));
    }
    match crate::json::find_key(e, "roundmarker") {
        None => Err(DecodeError::unknown_variant("monks-little-details", &e[0].0)),
        Some(i) => match crate::fields::decode_bool(&e[i].1) {
            Ok(b) => {
                reject_all_but(e, i)?;
                Ok(MonksLittleDetailsFlag::RoundMarker(b))
            },
            Err(err) => Err(err.within_key("roundmarker")),
        },
    }
}

/// One flag of a message, selected by the namespace it is stored under.
#[derive(Debug, PartialEq, Eq)]
pub enum MessageFlag<'a> {
    DnD5E(Dnd5eFlag<'a>),
    Core(CoreFlag),
    Polyglot(PolyglotFlag),
    MonksLittleDetails(MonksLittleDetailsFlag),
}

pub enum MessageFlagView<'a> {
    DnD5E(Dnd5eFlag<'a>),
    Core(CoreFlagView),
    Polyglot(PolyglotFlag),
    MonksLittleDetails(MonksLittleDetailsFlag),
}

impl<'a> View for MessageFlag<'a> {
    type V = MessageFlagView<'a>;

    open spec fn view(&self) -> MessageFlagView<'a> {
        match self {
            MessageFlag::DnD5E(f) => MessageFlagView::DnD5E(*f),
            MessageFlag::Core(f) => MessageFlagView::Core(f@),
            MessageFlag::Polyglot(f) => MessageFlagView::Polyglot(*f),
            MessageFlag::MonksLittleDetails(f) => MessageFlagView::MonksLittleDetails(*f),
        }
    }
}

/// The flag stored under namespace `ns`; the namespace itself is the discriminator.
pub open spec fn namespace_of<'a>(ns: Seq<char>, payload: JsonValue) -> Result<MessageFlagView<'a>, DecodeErrorView> {
    if ns == "dnd5e"@ {
        match dnd5e_of(payload) {
            Ok(f) => Ok(MessageFlagView::DnD5E(f)),
            Err(err) => Err(within(StepView::Key(ns), err)),
        }
    } else if ns == "core"@ {
        match core_flag_of(payload) {
            Ok(f) => Ok(MessageFlagView::Core(f)),
            Err(err) => Err(within(StepView::Key(ns), err)),
        }
    } else if ns == "polyglot"@ {
        match polyglot_flag_of(payload) {
            Ok(f) => Ok(MessageFlagView::Polyglot(f)),
            Err(err) => Err(within(StepView::Key(ns), err)),
        }
    } else if ns == "monks-little-details"@ {
        match monks_flag_of(payload) {
            Ok(f) => Ok(MessageFlagView::MonksLittleDetails(f)),
            Err(err) => Err(within(StepView::Key(ns), err)),
        }
    } else {
        Err(fault(ErrorKindView::UnknownVariant { discriminator: "namespace"@, value: ns }))
    }
}

/// Decodes the payload stored under one namespace of a message's flags.
pub fn decode_message_flag<'a>(ns: &String, payload: &'a JsonValue) -> (r: Result<MessageFlag<'a>, DecodeError>)
    ensures
        outcome_view(r) == namespace_of(ns@, *payload),
{
    if text_is(ns, "dnd5e") {
        match decode_dnd5e_flag(payload) {
            Ok(f) => Ok(MessageFlag::DnD5E(f)),
            Err(err) => Err(err.within_key(ns.as_str())),
        }
    } else if text_is(ns, "core") {
        match decode_core_flag(payload) {
            Ok(f) => Ok(MessageFlag::Core(f)),
            Err(err) => Err(err.within_key(ns.as_str())),
        }
    } else if text_is(ns, "polyglot") {
        match decode_polyglot_flag(payload) {
            Ok(f) => Ok(MessageFlag::Polyglot(f)),
            Err(err) => Err(err.within_key(ns.as_str())),
        }
    } else if text_is(ns, "monks-little-details") {
        match decode_monks_little_details_flag(payload) {
            Ok(f) => Ok(MessageFlag::MonksLittleDetails(f)),
            Err(err) => Err(err.within_key(ns.as_str())),
        }
    } else {
        Err(DecodeError::unknown_variant("namespace", ns))
    }
}

/// Whether an earlier entry of the object is written under the same key.
pub open spec fn repeated_key(e: Seq<(String, JsonValue)>, i: int) -> bool {
    exists|j: int| 0 <= j < i && e[j].0@ == e[i].0@
}

/// The flag of the entry at `i` of a flags object; a namespace may appear once.
pub open spec fn flag_entry<'a>(e: Seq<(String, JsonValue)>, i: int) -> Result<MessageFlagView<'a>, DecodeErrorView> {
    if repeated_key(e, i) {
        Err(fault(ErrorKindView::UnknownField { key: e[i].0@ }))
    } else {
        namespace_of(e[i].0@, e[i].1)
    }
}

pub open spec fn flags_in<'a>(e: Seq<(String, JsonValue)>) -> Result<Seq<MessageFlagView<'a>>, DecodeErrorView> {
    all_of(e.len() as int, |i: int| flag_entry(e, i))
}

pub open spec fn flags_of<'a>(v: JsonValue) -> Result<Seq<MessageFlagView<'a>>, DecodeErrorView> {
    match entries_of(v) {
        Ok(e) => flags_in(e),
        Err(err) => Err(err),
    }
}

proof fn lemma_flags_in_err<'a>(e: Seq<(String, JsonValue)>, i: int)
    requires
        0 <= i < e.len(),
        flag_entry(e, i) is Err,
        forall|j: int| 0 <= j < i ==> (#[trigger] flag_entry(e, j)) is Ok,
    ensures
        flags_in::<'a>(e) == Err::<Seq<MessageFlagView<'a>>, DecodeErrorView>(flag_entry::<'a>(e, i)->Err_0),
{
    lemma_all_of_err(e.len() as int, |i: int| flag_entry(e, i), i);
}

proof fn lemma_flags_in_ok<'a>(e: Seq<(String, JsonValue)>, out: Seq<MessageFlagView<'a>>)
    requires
        out.len() == e.len(),
        forall|j: int| 0 <= j < e.len() ==> (#[trigger] flag_entry(e, j)) == Ok::<MessageFlagView, DecodeErrorView>(out[j]),
    ensures
        flags_in(e) == Ok::<Seq<MessageFlagView>, DecodeErrorView>(out),
{
    lemma_all_of_ok(e.len() as int, |i: int| flag_entry(e, i), out);
}

/// Decodes the flags object of a message: each key a known namespace, each
/// namespace at most once, in the order in which they are written.
pub fn decode_message_flags<'a>(v: &'a JsonValue) -> (r: Result<Vec<MessageFlag<'a>>, DecodeError>)
    ensures
        match r {
            Ok(fs) => flags_of(*v) == Ok::<Seq<MessageFlagView>, DecodeErrorView>(fs@.map_values(|f: MessageFlag| f@)),
            Err(err) => flags_of(*v) == Err::<Seq<MessageFlagView>, DecodeErrorView>(err@),
        },
{
    let e = decode_entries(v)?;
    let mut out: Vec<MessageFlag> = Vec::new();
    let mut i: usize = 0;
    while i < e.len()
        invariant
            0 <= i <= e.len(),
            flags_of(*v) == flags_in(e@),
            out@.len() == i,
            forall|j: int| 0 <= j < i ==> (#[trigger] flag_entry(e@, j)) == Ok::<MessageFlagView, DecodeErrorView>(out@[j]@),
        decreases e.len() - i,
    {
        let mut k: usize = 0;
        while k < i
            invariant
                0 <= k <= i < e.len(),
                flags_of(*v) == flags_in(e@),
                out@.len() == i,
                forall|j: int| 0 <= j < i ==> (#[trigger] flag_entry(e@, j)) == Ok::<MessageFlagView, DecodeErrorView>(out@[j]@),
                forall|j: int| 0 <= j < k ==> e@[j].0@ != e@[i as int].0@,
            decreases i - k,
        {
            if e[k].0 == e[i].0 {
                proof {
                    assert(repeated_key(e@, i as int));
                    lemma_flags_in_err(e@, i as int);
                }
                return Err(DecodeError::unknown_field(&e[i].0));
            }
            k = k + 1;
        }
        match decode_message_flag(&e[i].0, &e[i].1) {
            Ok(f) => out.push(f),
            Err(err) => {
                proof {
                    lemma_flags_in_err(e@, i as int);
                }
                return Err(err);
            },
        }
        i = i + 1;
    }
    proof {
        lemma_flags_in_ok(e@, out@.map_values(|f: MessageFlag| f@));
    }
    Ok(out)
}

} // verus!
