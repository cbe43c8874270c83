use chatlog_schema::error::{ErrorKind, PathStep};
use chatlog_schema::item::{
    decode_item, decode_item_activation, decode_item_id, deserialize_item_id, empty_string_as_none,
    ActivationType, ItemActivation, ItemId, ItemRarity,
};
use chatlog_schema::json::{JsonKind, JsonValue};
use chatlog_schema::message_flag::Ability;

fn to_json(v: &serde_json::Value) -> JsonValue {
    match v {
        serde_json::Value::Null => JsonValue::Null,
        serde_json::Value::Bool(b) => JsonValue::Bool(*b),
        serde_json::Value::Number(n) => match (n.as_i64(), n.as_u64()) {
            (Some(i), _) => JsonValue::Int(i as i128),
            (None, Some(u)) => JsonValue::Int(u as i128),
            (None, None) => JsonValue::Float(n.to_string()),
        },
        serde_json::Value::String(s) => JsonValue::Str(s.clone()),
        serde_json::Value::Array(a) => JsonValue::Array(a.iter().map(to_json).collect()),
        serde_json::Value::Object(m) => {
            JsonValue::Object(m.iter().map(|(k, x)| (k.clone(), to_json(x))).collect())
        }
    }
}

/// Parses a JSON text into a value that lives as long as the test.
fn parse(text: &str) -> &'static JsonValue {
    Box::leak(Box::new(to_json(&serde_json::from_str::<serde_json::Value>(text).unwrap())))
}

#[test]
fn test_1() {
    decode_item(&parse(r#"{"_id":"4e6uRdw7O0RkB3HP","name":"Potion of Greater Healing","type":"consumable","img":"icons/consumables/potions/bottle-bulb-corked-glowing-red.webp","data":{"description":{"value":"\n\t\t<div class=\"rd__b  rd__b--2\"><p>You regain [[/r 4d4 + 4]] hit points when you drink this potion. The potion's red liquid glimmers when agitated.</p></div>","chat":"","unidentified":""},"source":"DMG","quantity":0,"weight":0,"price":null,"attunement":0,"equipped":false,"rarity":"uncommon","identified":true,"activation":{"type":"action","cost":1,"condition":""},"duration":{"value":null,"units":"inst"},"target":{"value":1,"width":null,"units":"","type":"creature"},"range":{"value":5,"long":0,"units":"ft"},"uses":{"value":1,"max":"1","per":"charges","autoDestroy":true,"autoUse":true},"consume":{"type":"","target":"","amount":null,"value":"","_deprecated":true},"ability":"","actionType":"heal","attackBonus":0,"chatFlavor":"","critical":{"threshold":null,"damage":""},"damage":{"parts":[["4d4 + 4","healing"]],"versatile":""},"formula":"","save":{"ability":"","dc":null,"scaling":"spell"},"consumableType":"potion","attributes":{"spelldc":10},"consumes":{"type":"","target":null,"amount":null},"charges":{"value":1,"max":1,"_deprecated":true},"autoUse":{"value":true,"_deprecated":true},"autoDestroy":{"value":true,"_deprecated":true}},"effects":[],"folder":null,"sort":0,"permission":{"default":0,"cm6WmS8goi7Z7Uy8":3},"flags":{"srd5e":{"page":"items.html","source":"DMG","hash":"potion%20of%20greater%20healing_dmg"},"scene-packer":{"hash":"94e7a4c1cc3b8e117c6cda66f25e5999cbd233ea"},"core":{"sourceId":"Item.F8yFyu7BBGS6kFty"}}}"#)).unwrap();
}

#[test]
fn potion_fields() {
    let item = decode_item(&parse(r#"{"_id":"4e6uRdw7O0RkB3HP","name":"Potion of Greater Healing","type":"consumable","img":"icons/consumables/potions/bottle-bulb-corked-glowing-red.webp","data":{"description":{"value":"\n\t\t<div class=\"rd__b  rd__b--2\"><p>You regain [[/r 4d4 + 4]] hit points when you drink this potion. The potion's red liquid glimmers when agitated.</p></div>","chat":"","unidentified":""},"source":"DMG","quantity":0,"weight":0,"price":null,"attunement":0,"equipped":false,"rarity":"uncommon","identified":true,"activation":{"type":"action","cost":1,"condition":""},"duration":{"value":null,"units":"inst"},"target":{"value":1,"width":null,"units":"","type":"creature"},"range":{"value":5,"long":0,"units":"ft"},"uses":{"value":1,"max":"1","per":"charges","autoDestroy":true,"autoUse":true},"consume":{"type":"","target":"","amount":null,"value":"","_deprecated":true},"ability":"","actionType":"heal","attackBonus":0,"chatFlavor":"","critical":{"threshold":null,"damage":""},"damage":{"parts":[["4d4 + 4","healing"]],"versatile":""},"formula":"","save":{"ability":"","dc":null,"scaling":"spell"},"consumableType":"potion","attributes":{"spelldc":10},"consumes":{"type":"","target":null,"amount":null},"charges":{"value":1,"max":1,"_deprecated":true},"autoUse":{"value":true,"_deprecated":true},"autoDestroy":{"value":true,"_deprecated":true}},"effects":[],"folder":null,"sort":0,"permission":{"default":0,"cm6WmS8goi7Z7Uy8":3},"flags":{"srd5e":{"page":"items.html","source":"DMG","hash":"potion%20of%20greater%20healing_dmg"},"scene-packer":{"hash":"94e7a4c1cc3b8e117c6cda66f25e5999cbd233ea"},"core":{"sourceId":"Item.F8yFyu7BBGS6kFty"}}}"#)).unwrap();
    assert_eq!(item.id, ItemId { id: "4e6uRdw7O0RkB3HP".to_string() });
    assert_eq!(item.name, "Potion of Greater Healing");
    assert_eq!(item.item_type, "consumable");
    let data = item.data.unwrap();
    assert_eq!(data.source, "DMG");
    assert_eq!(data.price, None);
    assert_eq!(data.rarity, ItemRarity::Uncommon);
    assert_eq!(data.ability, None);
    assert_eq!(data.action_type, "heal");
    assert!(data.identified);
    assert_eq!(
        data.activation,
        Some(ItemActivation { activation_type: ActivationType::Action, cost: 1, condition: String::new() })
    );
    assert_eq!(data.consumable_type, Some("potion".to_string()));
    assert_eq!(data.formula, Some(String::new()));
    assert_eq!(data.attributes, Some(parse(r#"{"spelldc":10}"#)));
    assert_eq!(item.img, Some("icons/consumables/potions/bottle-bulb-corked-glowing-red.webp".to_string()));
    assert_eq!(item.folder, None);
    assert_eq!(item.effects, Some(&JsonValue::Array(vec![])));
    assert_eq!(item.sort, Some(&JsonValue::Int(0)));
}

#[test]
fn unknown_item_key_is_rejected() {
    let err = decode_item(&parse(r#"{"_id":"A","name":"N","type":"t","color":"red"}"#)).unwrap_err();
    assert_eq!(err.path, vec![]);
    assert_eq!(err.kind, ErrorKind::UnknownField { key: "color".to_string() });
}

#[test]
fn unknown_item_data_key_is_rejected() {
    let text = r#"{"_id":"A","name":"N","type":"t","data":{"description":{"value":"","chat":"","unidentified":""},"source":"","quantity":1,"weight":0,"attunement":0,"equipped":false,"rarity":"uncommon","identified":true,"ability":"","actionType":"","attackBonus":0,"chatFlavor":"","glow":1}}"#;
    let err = decode_item(&parse(text)).unwrap_err();
    assert_eq!(err.path, vec![PathStep::Key("data".to_string())]);
    assert_eq!(err.kind, ErrorKind::UnknownField { key: "glow".to_string() });
}

#[test]
fn unknown_description_key_is_rejected() {
    let text = r#"{"_id":"A","name":"N","type":"t","data":{"description":{"value":"","chat":"","unidentified":"","gm":""},"source":"","quantity":1,"weight":0,"attunement":0,"equipped":false,"rarity":"uncommon","identified":true,"ability":"","actionType":"","attackBonus":0,"chatFlavor":""}}"#;
    let err = decode_item(&parse(text)).unwrap_err();
    assert_eq!(err.path, vec![PathStep::Key("data".to_string()), PathStep::Key("description".to_string())]);
    assert_eq!(err.kind, ErrorKind::UnknownField { key: "gm".to_string() });
}

#[test]
fn item_without_data() {
    let item = decode_item(&parse(r#"{"_id":"A","name":"Feat","type":"feat"}"#)).unwrap();
    assert_eq!(item.data, None);
}

#[test]
fn item_alias_equivalence() {
    let a = decode_item(&parse(r#"{"_id":"A","name":"N","type":"t"}"#)).unwrap();
    let b = decode_item(&parse(r#"{"itemId":"A","name":"N","type":"t"}"#)).unwrap();
    assert_eq!(a, b);
}

#[test]
fn item_with_both_identifiers_fails() {
    let err = decode_item(&parse(r#"{"_id":"A","itemId":"A","name":"N","type":"t"}"#)).unwrap_err();
    assert_eq!(err.path, vec![]);
    assert_eq!(err.kind, ErrorKind::UnknownField { key: "itemId".to_string() });
}

#[test]
fn item_id_object_alias_equivalence() {
    assert_eq!(decode_item_id(&parse(r#"{"_id":"Z"}"#)).unwrap(), decode_item_id(&parse(r#"{"itemId":"Z"}"#)).unwrap());
    let err = decode_item_id(&parse(r#"{"_id":"Z","itemId":"Z"}"#)).unwrap_err();
    assert_eq!(err.kind, ErrorKind::UnknownField { key: "itemId".to_string() });
}

#[test]
fn bare_item_id() {
    assert_eq!(deserialize_item_id(&parse(r#""X1""#)).unwrap(), ItemId { id: "X1".to_string() });
    let err = deserialize_item_id(&parse("3")).unwrap_err();
    assert_eq!(err.kind, ErrorKind::TypeMismatch { expected: JsonKind::Str, found: JsonKind::Int });
}

#[test]
fn sentinel_ability_values() {
    assert_eq!(empty_string_as_none(&parse(r#""""#)).unwrap(), None);
    assert_eq!(empty_string_as_none(&parse("null")).unwrap(), None);
    assert_eq!(empty_string_as_none(&parse(r#""wis""#)).unwrap(), Some(Ability::Wisdom));
    let err = empty_string_as_none(&parse(r#""xx""#)).unwrap_err();
    assert_eq!(err.kind, ErrorKind::UnknownVariant { discriminator: "ability".to_string(), value: "xx".to_string() });
}

#[test]
fn unknown_rarity_is_reported_with_path() {
    let text = r#"{"_id":"A","name":"N","type":"t","data":{"description":{"value":"","chat":"","unidentified":""},"source":"","quantity":1,"weight":0,"attunement":0,"equipped":false,"rarity":"legendary","identified":true,"ability":"","actionType":"","attackBonus":0,"chatFlavor":""}}"#;
    let err = decode_item(&parse(text)).unwrap_err();
    assert_eq!(err.path, vec![PathStep::Key("data".to_string()), PathStep::Key("rarity".to_string())]);
    assert_eq!(err.kind, ErrorKind::UnknownVariant { discriminator: "rarity".to_string(), value: "legendary".to_string() });
}

#[test]
fn very_rare_item_with_strength() {
    let text = r#"{"_id":"A","name":"N","type":"t","data":{"description":{"value":"v","chat":"c","unidentified":"u"},"source":"S","quantity":2,"weight":3,"price":40,"attunement":1,"equipped":true,"rarity":"veryRare","identified":false,"ability":"str","actionType":"mwak","attackBonus":1,"chatFlavor":"f"}}"#;
    let data = decode_item(&parse(text)).unwrap().data.unwrap();
    assert_eq!(data.rarity, ItemRarity::VeryRare);
    assert_eq!(data.ability, Some(Ability::Strength));
    assert_eq!(data.price, Some(40));
    assert_eq!((data.quantity, data.weight, data.attunement, data.attack_bonus), (2, 3, 1, 1));
    assert_eq!(data.description.unidentified, "u");
}

#[test]
fn fractional_weight_is_a_type_mismatch() {
    let text = r#"{"_id":"A","name":"N","type":"t","data":{"description":{"value":"","chat":"","unidentified":""},"source":"","quantity":1,"weight":0.5,"attunement":0,"equipped":false,"rarity":"uncommon","identified":true,"ability":"","actionType":"","attackBonus":0,"chatFlavor":""}}"#;
    let err = decode_item(&parse(text)).unwrap_err();
    assert_eq!(err.path, vec![PathStep::Key("data".to_string()), PathStep::Key("weight".to_string())]);
    assert_eq!(err.kind, ErrorKind::TypeMismatch { expected: JsonKind::Int, found: JsonKind::Float });
}

#[test]
fn item_activation() {
    assert_eq!(
        decode_item_activation(&parse(r#"{"type":"action","cost":1,"condition":""}"#)).unwrap(),
        ItemActivation { activation_type: ActivationType::Action, cost: 1, condition: String::new() }
    );
    let err = decode_item_activation(&parse(r#"{"type":"bonus","cost":1,"condition":""}"#)).unwrap_err();
    assert_eq!(err.kind, ErrorKind::UnknownVariant { discriminator: "activation".to_string(), value: "bonus".to_string() });
}

#[test]
fn item_that_is_not_an_object() {
    let err = decode_item(&JsonValue::Array(vec![])).unwrap_err();
    assert_eq!(err.kind, ErrorKind::TypeMismatch { expected: JsonKind::Object, found: JsonKind::Array });
}
