use logic::api::auth::{
    claims_for, login_answer, password_answer, registration_answer, token_of_header,
    user_of_claims, Claims, CurrentUser, NewUserResult, Registration,
};
use logic::api::character_classes::{
    character_class_from_entity, compute_character_class_changes, entity_to_save,
    pretty_print_vec, protocol_character_class_feature_to_entity,
    protocol_character_class_to_entity,
};
use logic::api::items::{item_change, stored_answer, ItemChange, ItemDefinition};
use logic::api::responses::{bad_request_problem, ApiResponse, Payload, Problem};
use logic::api::worlds::{new_world_change, same_bytes, world_change, WorldChange, WorldDefinition};
use logic::db::game::{
    save_action, CharacterClass as StoredClass, CharacterClassFeature as StoredFeature, Item,
    SaveAction, World,
};
use logic::protocol::character_class::{CharacterClass, CharacterClassFeature};
use logic::protocol::signature::TypeSignature;
use logic::utilities::text::{parse_integer, signed_decimal_string};
use sha2::Digest;

fn sha(bytes: &[u8]) -> Vec<u8> {
    sha2::Sha256::digest(bytes).to_vec()
}

#[test]
fn status_codes() {
    let responses: Vec<(ApiResponse<i32>, u16)> = vec![
        (ApiResponse::Okay, 200),
        (ApiResponse::NotFound("x".to_string()), 404),
        (ApiResponse::NotChanged, 304),
        (ApiResponse::BadRequest(vec![]), 400),
        (ApiResponse::Created(Payload { data: 1 }), 201),
        (ApiResponse::Error("x".to_string()), 500),
        (ApiResponse::JsonData(Payload { data: 1 }), 200),
        (ApiResponse::Unauthorized("x".to_string()), 401),
    ];
    for (response, code) in responses {
        assert_eq!(response.status_code(), code);
    }
    let problem = Problem::new(418, vec!["teapot".to_string()]);
    assert_eq!(problem.status, 418);
    assert_eq!(problem.reasons, vec!["teapot"]);
    let problem = bad_request_problem(vec!["a".to_string(), "b".to_string()]);
    assert_eq!(problem.status, 400);
    assert_eq!(problem.reasons, vec!["a", "b"]);
}

fn user(id: i64) -> CurrentUser {
    CurrentUser {
        id,
        email: "alice@example.org".to_string(),
        full_name: "Alice".to_string(),
        password_hash: "hash".to_string(),
    }
}

#[test]
fn claims_expire_a_day_later() {
    let claims = claims_for(user(42), 1_700_000_000).unwrap();
    assert_eq!(claims.iat, 1_700_000_000);
    assert_eq!(claims.exp, 1_700_086_400);
    assert_eq!(claims.sub, "42");
    assert_eq!(claims.email, "alice@example.org");
    assert_eq!(claims_for(user(-7), 0).unwrap().sub, "-7");
    assert_eq!(claims_for(user(1), 0).unwrap().exp, 86400);
    assert!(claims_for(user(1), -1).is_none());
    assert!(claims_for(user(1), i64::MAX).is_none());
    assert!(claims_for(user(1), i64::MAX - 86399).is_none());
    assert_eq!(claims_for(user(1), i64::MAX - 86400).unwrap().exp as i64, i64::MAX);
}

#[test]
fn user_is_read_from_the_subject() {
    let claims = Claims { exp: 2, iat: 1, email: "bob@example.org".to_string(), sub: "1234".to_string() };
    let found = user_of_claims(claims).unwrap();
    assert_eq!(found.id, 1234);
    assert_eq!(found.email, "bob@example.org");
    assert_eq!(found.full_name, "");
    assert_eq!(found.password_hash, "");
    let claims = Claims { exp: 2, iat: 1, email: "bob@example.org".to_string(), sub: "bob".to_string() };
    assert!(user_of_claims(claims).is_none());
}

#[test]
fn integers_are_read_as_the_standard_library_reads_them() {
    for text in [
        "0", "7", "-7", "+7", "007", "-0", "+0", "9223372036854775807", "9223372036854775808",
        "-9223372036854775808", "-9223372036854775809", "", "+", "-", "--1", "+-1", "1 ", " 1",
        "1_000", "12a", "a12", "1.5", "٣", "99999999999999999999999999", "-00000000000000000000001",
    ] {
        assert_eq!(parse_integer(text), text.parse::<i64>().ok(), "{:?}", text);
    }
    for value in [0i64, 5, -5, 10, 1905, i64::MAX, i64::MIN, -1000000] {
        assert_eq!(signed_decimal_string(value), value.to_string());
        assert_eq!(parse_integer(&value.to_string()), Some(value));
    }
}

#[test]
fn token_is_the_second_word() {
    assert_eq!(token_of_header("Bearer abc.def.ghi"), Some("abc.def.ghi".to_string()));
    assert_eq!(token_of_header("  Bearer \t abc  trailing"), Some("abc".to_string()));
    assert_eq!(token_of_header("Basic\u{00A0}xyz"), Some("xyz".to_string()));
    assert_eq!(token_of_header("Bearer"), None);
    assert_eq!(token_of_header("Bearer   "), None);
    assert_eq!(token_of_header(""), None);
    assert_eq!(token_of_header("   "), None);
    for header in ["a b", " a  b c ", "one", "x\ny\tz", "", " "] {
        let mut words = header.split_whitespace();
        let _ = words.next();
        assert_eq!(token_of_header(header), words.next().map(|w| w.to_string()));
    }
}

#[test]
fn login_answers() {
    assert!(password_answer(Some(true)).is_none());
    match password_answer(Some(false)) {
        Some(ApiResponse::Unauthorized(message)) => assert_eq!(message, "invalid Credentials"),
        _ => panic!("expected an unauthorized answer"),
    }
    match password_answer(None) {
        Some(ApiResponse::Error(message)) => assert_eq!(message, "Failed to verify password"),
        _ => panic!("expected an error"),
    }
    match login_answer(Some("token".to_string())) {
        ApiResponse::JsonData(payload) => {
            assert_eq!(payload.data.token, "token");
            assert_eq!(payload.data.status, 200);
            assert_eq!(payload.data.message, "Login successful");
        }
        _ => panic!("expected data"),
    }
    match login_answer(None) {
        ApiResponse::Error(message) => assert_eq!(message, "Failed to create token"),
        _ => panic!("expected an error"),
    }
}

fn definition() -> WorldDefinition {
    WorldDefinition {
        id: None,
        code: "devgalaxy".to_string(),
        name: "devgalaxy".to_string(),
        description: "A galaxy for development".to_string(),
        created_at: None,
    }
}

fn stored_world() -> World {
    World {
        id: 9,
        code: "devgalaxy".to_string(),
        name: "devgalaxy".to_string(),
        description: "A galaxy for development".to_string(),
        created_at: 100,
        updated_at: 200,
    }
}

#[test]
fn world_definition_rules() {
    assert!(definition().is_valid());
    for field in 0..3 {
        let mut d = definition();
        match field {
            0 => d.code = String::new(),
            1 => d.name = String::new(),
            _ => d.description = String::new(),
        }
        assert!(!d.is_valid());
        match world_change(&d, "devgalaxy", None, 5) {
            WorldChange::Rejected(reasons) => assert_eq!(reasons, vec!["Invalid world definition"]),
            _ => panic!("expected a rejection"),
        }
        match new_world_change(&d, false, 5) {
            WorldChange::Rejected(reasons) => assert_eq!(reasons, vec!["Invalid world definition"]),
            _ => panic!("expected a rejection"),
        }
    }
    assert_eq!(definition().signature(), sha(b"devgalaxydevgalaxyA galaxy for development"));
    assert_eq!(definition().signature(), stored_world().signature());
    assert_eq!(stored_world().as_new_world().signature(), stored_world().signature());
    let world = definition().to_world(77);
    assert_eq!((world.id, world.created_at, world.updated_at), (0, 77, 77));
    let mut d = definition();
    d.id = Some(4);
    d.created_at = Some(11);
    let world = d.to_world(77);
    assert_eq!((world.id, world.created_at, world.updated_at), (4, 11, 77));
}

#[test]
fn world_change_decisions() {
    match world_change(&definition(), "other", None, 5) {
        WorldChange::Rejected(reasons) => assert_eq!(reasons, vec!["World code mismatch"]),
        _ => panic!("expected a rejection"),
    }
    assert!(matches!(
        world_change(&definition(), "devgalaxy", Some(&stored_world()), 5),
        WorldChange::NotChanged
    ));
    match world_change(&definition(), "devgalaxy", None, 5) {
        WorldChange::Save(world) => {
            assert_eq!(world.id, 0);
            assert_eq!(world.code, "devgalaxy");
            assert_eq!((world.created_at, world.updated_at), (5, 5));
        }
        _ => panic!("expected a save"),
    }
    let mut changed = definition();
    changed.description = "Another description".to_string();
    changed.created_at = Some(3);
    match world_change(&changed, "devgalaxy", Some(&stored_world()), 5) {
        WorldChange::Save(world) => {
            assert_eq!(world.id, 9);
            assert_eq!(world.description, "Another description");
            assert_eq!((world.created_at, world.updated_at), (3, 5));
        }
        _ => panic!("expected a save"),
    }
    match new_world_change(&definition(), true, 5) {
        WorldChange::Rejected(reasons) => assert_eq!(reasons, vec!["World already exists"]),
        _ => panic!("expected a rejection"),
    }
    assert!(matches!(new_world_change(&definition(), false, 5), WorldChange::Save(_)));
    assert!(same_bytes(&vec![1, 2, 3], &vec![1, 2, 3]));
    assert!(!same_bytes(&vec![1, 2, 3], &vec![1, 2, 4]));
    assert!(!same_bytes(&vec![1, 2, 3], &vec![1, 2]));
    assert!(same_bytes(&vec![], &vec![]));
}

fn item_definition() -> ItemDefinition {
    ItemDefinition {
        id: None,
        world_id: Some(1),
        category_id: 2,
        code: "rifle".to_string(),
        item_type: "weapon".to_string(),
        name: "Rifle".to_string(),
        description: "A longarm".to_string(),
        item_properties: "{\"range\":400}".to_string(),
        base_price: 1375,
        created_at: None,
    }
}

#[test]
fn item_definition_rules() {
    assert_eq!(item_definition().is_valid(), Ok(()));
    let broken = ItemDefinition {
        id: None,
        world_id: None,
        category_id: 0,
        code: String::new(),
        item_type: String::new(),
        name: String::new(),
        description: String::new(),
        item_properties: "null".to_string(),
        base_price: 0,
        created_at: None,
    };
    let all = vec![
        "Category ID is required",
        "Code is required",
        "Item type is required",
        "Name is required",
        "Description is required",
        "Base price must be greater than 0",
    ];
    assert_eq!(broken.is_valid(), Err(all.iter().map(|s| s.to_string()).collect()));
    match item_change(&broken, 1, None, 5) {
        ItemChange::Rejected(reasons) => assert_eq!(reasons, all),
        _ => panic!("expected a rejection"),
    }
    let mut one = item_definition();
    one.base_price = -1;
    assert_eq!(one.is_valid(), Err(vec!["Base price must be greater than 0".to_string()]));

    let mut raw = Vec::new();
    raw.extend_from_slice(&1i64.to_be_bytes());
    raw.extend_from_slice(&2i64.to_be_bytes());
    raw.extend_from_slice(b"rifleweaponRifleA longarm");
    raw.extend_from_slice(&1375i64.to_be_bytes());
    assert_eq!(item_definition().signature(), sha(&raw));
    let mut worldless = item_definition();
    worldless.world_id = None;
    assert_eq!(worldless.signature(), sha(&raw[8..]));
    let item = worldless.to_item(9);
    assert_eq!((item.id, item.world_id, item.created_at, item.updated_at), (0, 0, 9, 9));
    assert_eq!(item_definition().to_item(9).signature(), sha(&raw));
    assert_eq!(item_definition().to_item(9).as_new_item().item_properties, "{\"range\":400}");
}

#[test]
fn item_change_decisions() {
    match item_change(&item_definition(), 4, None, 5) {
        ItemChange::Save(item) => {
            assert_eq!((item.id, item.world_id, item.created_at, item.updated_at), (0, 4, 5, 5));
            assert_eq!(item.code, "rifle");
        }
        _ => panic!("expected a save"),
    }
    let stored: Item = item_definition().to_record(31, 4, 1);
    assert!(matches!(item_change(&item_definition(), 4, Some(&stored), 5), ItemChange::NotChanged));
    let mut dearer = item_definition();
    dearer.base_price = 1400;
    match item_change(&dearer, 4, Some(&stored), 5) {
        ItemChange::Save(item) => {
            assert_eq!(item.id, 31);
            assert_eq!(item.base_price, 1400);
        }
        _ => panic!("expected a save"),
    }
    // The item moved to another world: the signature differs.
    assert!(matches!(item_change(&item_definition(), 5, Some(&stored), 5), ItemChange::Save(_)));
    assert!(matches!(stored_answer(0, 1), ApiResponse::Created(Payload { data: 1 })));
    assert!(matches!(stored_answer(31, 1), ApiResponse::JsonData(Payload { data: 1 })));
    assert_eq!(save_action(0), SaveAction::Create);
    assert_eq!(save_action(31), SaveAction::Update);
    assert_eq!(save_action(-1), SaveAction::Update);
}

fn mechanic() -> CharacterClass {
    CharacterClass {
        id: Some(12),
        world_id: Some(1),
        code: Some("mechanic".to_string()),
        name: "Mechanic".to_string(),
        description: "A master of machines and technology.".to_string(),
        hit_points: 6,
        stamina_expression: "10 + CON".to_string(),
        skillpoint_expression: "4 + INT".to_string(),
        proficiencies: Some(vec!["Light \"Armor\"".to_string(), "Small Arms".to_string()]),
        features: Some(vec![CharacterClassFeature {
            level: 1,
            code: "mechanic-ai".to_string(),
            name: "Artificial Intelligence".to_string(),
            description: "You have an AI that assists you.".to_string(),
        }]),
    }
}

#[test]
fn class_changes_are_computed() {
    let delta = compute_character_class_changes(None, &mechanic());
    assert!(delta.has_changed());
    assert!(delta.existing_class.is_none());
    assert_eq!(delta.class_changes.unwrap().signature(), mechanic().signature());
    assert_eq!(delta.feature_changes.unwrap().len(), 1);
    assert!(delta.removed_features.is_none());

    let delta = compute_character_class_changes(Some(mechanic()), &mechanic());
    assert!(!delta.has_changed());
    assert!(delta.existing_class.is_none() && delta.class_changes.is_none());
    assert!(delta.feature_changes.is_none() && delta.removed_features.is_none());

    let mut candidate = mechanic();
    candidate.hit_points = 8;
    candidate.features = None;
    let delta = compute_character_class_changes(Some(mechanic()), &candidate);
    assert!(delta.has_changed());
    assert_eq!(delta.existing_class.unwrap().hit_points, 6);
    assert_eq!(delta.class_changes.unwrap().hit_points, 8);
    assert!(delta.feature_changes.is_none());
}

#[test]
fn bytes_are_printed_in_base_sixteen() {
    assert_eq!(pretty_print_vec(&vec![]), "");
    assert_eq!(pretty_print_vec(&vec![0x00, 0x0f, 0x10, 0xab, 0xff, 0x9a]), "000f10abff9a");
    let all: Vec<u8> = (0..=255).collect();
    let expected: String = all.iter().map(|b| format!("{:02x}", b)).collect();
    assert_eq!(pretty_print_vec(&all), expected);
}

#[test]
fn class_becomes_a_record() {
    let entity = protocol_character_class_to_entity(&mechanic(), 50);
    assert_eq!((entity.id, entity.world_id, entity.hit_points), (12, 1, 6));
    assert_eq!(entity.code, "mechanic");
    assert_eq!(entity.proficiencies, "[\"Light \\\"Armor\\\"\",\"Small Arms\"]");
    assert_eq!((entity.created_at, entity.updated_at), (50, 50));
    let mut bare = mechanic();
    bare.id = None;
    bare.world_id = None;
    bare.code = None;
    bare.proficiencies = None;
    let entity = protocol_character_class_to_entity(&bare, 50);
    assert_eq!((entity.id, entity.world_id), (0, 0));
    assert_eq!(entity.code, "");
    assert_eq!(entity.proficiencies, "null");
    assert_eq!(entity.as_new_character_class().signature(), entity.signature());

    let feature = protocol_character_class_feature_to_entity(&mechanic().features.unwrap()[0], 51);
    assert_eq!((feature.id, feature.class_id, feature.level), (0, 0, 1));
    assert_eq!(feature.code, "mechanic-ai");
    assert_eq!((feature.created_at, feature.updated_at), (51, 51));
    assert_eq!(feature.as_new_character_class_feature().signature(), feature.signature());
    let mut raw = Vec::new();
    raw.extend_from_slice(&0i64.to_be_bytes());
    raw.extend_from_slice(&1i32.to_be_bytes());
    raw.extend_from_slice(b"mechanic-aiArtificial IntelligenceYou have an AI that assists you.");
    assert_eq!(feature.signature(), sha(&raw));

    let entity = protocol_character_class_to_entity(&bare, 50);
    let saved = entity_to_save(entity.clone(), &Some(mechanic()), 3);
    assert_eq!((saved.id, saved.world_id), (12, 3));
    let saved = entity_to_save(entity.clone(), &None, 3);
    assert_eq!((saved.id, saved.world_id), (0, 3));
    let mut unsaved = mechanic();
    unsaved.id = None;
    let saved = entity_to_save(protocol_character_class_to_entity(&mechanic(), 1), &Some(unsaved), 3);
    assert_eq!(saved.id, 0);
}

#[test]
fn record_becomes_a_class() {
    let entity: StoredClass = protocol_character_class_to_entity(&mechanic(), 50);
    let features = vec![
        StoredFeature {
            id: 1,
            class_id: 12,
            level: 1,
            code: "a".to_string(),
            name: "A".to_string(),
            description: "first".to_string(),
            created_at: 0,
            updated_at: 0,
        },
        StoredFeature {
            id: 2,
            class_id: 12,
            level: 2,
            code: "b".to_string(),
            name: "B".to_string(),
            description: "second".to_string(),
            created_at: 0,
            updated_at: 0,
        },
    ];
    let class = character_class_from_entity(&entity, vec!["Small Arms".to_string()], &features);
    assert_eq!(class.id, Some(12));
    assert_eq!(class.world_id, Some(1));
    assert_eq!(class.code, Some("mechanic".to_string()));
    assert_eq!(class.proficiencies, Some(vec!["Small Arms".to_string()]));
    let listed = class.features.unwrap();
    assert_eq!(listed.len(), 2);
    assert_eq!((listed[1].level, listed[1].code.as_str()), (2, "b"));
    let class = character_class_from_entity(&entity, vec![], &vec![]);
    assert!(class.features.is_none());
    assert_eq!(class.proficiencies, Some(vec![]));
}

#[test]
fn registration_answers() {
    let user = NewUserResult { user_id: 5, email: "eve@example.org".to_string() };
    match registration_answer(Registration::Created(user)) {
        ApiResponse::Created(payload) => {
            assert_eq!(payload.data.user_id, 5);
            assert_eq!(payload.data.email, "eve@example.org");
        }
        _ => panic!("expected a created answer"),
    }
    match registration_answer(Registration::RolledBack) {
        ApiResponse::BadRequest(reasons) => assert_eq!(reasons, vec!["User already exists"]),
        _ => panic!("expected a bad request"),
    }
    match registration_answer(Registration::Failed) {
        ApiResponse::Error(message) => assert_eq!(message, "Failed to create user"),
        _ => panic!("expected an error"),
    }
}
