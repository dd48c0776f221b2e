//! Decoding, URL, and fetch-completion behaviour of the library, driven by
//! JSON bodies parsed with serde_json the way a caller would hand them in.

use twitch_app_api::{Addon, Category, DecodeError, FetchError, File, Json, Num};

fn num_of(n: &serde_json::Number) -> Num {
    if let Some(u) = n.as_u64() {
        Num::U(u)
    } else if let Some(i) = n.as_i64() {
        Num::I(i)
    } else {
        Num::Bits(n.as_f64().unwrap().to_bits())
    }
}

fn to_json(v: &serde_json::Value) -> Json {
    match v {
        serde_json::Value::Null => Json::Null,
        serde_json::Value::Bool(b) => Json::Bool(*b),
        serde_json::Value::Number(n) => Json::Num(num_of(n)),
        serde_json::Value::String(s) => Json::Str(s.clone()),
        serde_json::Value::Array(a) => Json::Arr(a.iter().map(to_json).collect()),
        serde_json::Value::Object(m) => {
            Json::Obj(m.iter().map(|(k, v)| (k.clone(), to_json(v))).collect())
        }
    }
}

/// What the network side hands the library for a response body.
fn body(text: &str) -> Result<Option<Json>, String> {
    Ok(serde_json::from_str::<serde_json::Value>(text)
        .ok()
        .map(|v| to_json(&v)))
}

fn addon_text() -> String {
    String::from(
        r#"{
        "id": 238222,
        "name": "Test",
        "authors": [],
        "attachments": [],
        "websiteUrl": "https://example.org/jei",
        "gameId": 432,
        "summary": "An item and recipe viewer",
        "defaultFileId": 3043174,
        "downloadCount": 150000000.0,
        "latestFiles": [],
        "categories": [],
        "status": 4,
        "primaryCategoryId": 423,
        "categorySection": {
            "id": 8,
            "gameId": 432,
            "name": "Mods",
            "packageType": 6,
            "path": "mods",
            "initialInclusionPattern": ".",
            "extraIncludePattern": null,
            "gameCategoryId": 6
        },
        "slug": "jei",
        "gameVersionLatestFiles": [{
            "gameVersion": "1.12.2",
            "projectFileId": 2995897,
            "projectFileName": "jei_1.12.2.jar",
            "fileType": 1
        }],
        "isFeatured": true,
        "popularityScore": 14012.1,
        "gamePopularityRank": 13,
        "primaryLanguage": "enUS",
        "gameSlug": "minecraft",
        "gameName": "Minecraft",
        "portalName": "www.curseforge.com",
        "dateModified": "2020-07-07T08:53:23.217Z",
        "dateCreated": "2015-11-23T22:55:53.84Z",
        "dateReleased": "2020-07-05T15:27:30.71Z",
        "isAvailable": true,
        "isExperiemental": false
    }"#,
    )
}

fn file_text(dependencies: &str, expose_as_alternative: &str) -> String {
    format!(
        r#"{{
        "id": 3043174,
        "displayName": "jei 1.12.2",
        "fileName": "jei_1.12.2.jar",
        "fileDate": "2020-08-24T01:01:39.123Z",
        "fileLength": 653181,
        "releaseType": 1,
        "fileStatus": 4,
        "downloadUrl": "https://example.org/files/jei_1.12.2.jar",
        "isAlternate": false,
        "alternateFileId": 0,
        "dependencies": {},
        "isAvailable": true,
        "modules": [{{"foldername": "META-INF", "fingerprint": 1774297949, "type": 3}}],
        "packageFingerprint": 2281969530,
        "gameVersion": ["1.12.2"],
        "sortableGameVersion": [{{
            "gameVersionPadded": "0000000001.0000000012.0000000002",
            "gameVersion": "1.12.2",
            "gameVersionReleaseDate": "2017-09-18T05:00:00Z",
            "gameVersionName": "1.12.2"
        }}],
        "installMetadata": null,
        "changelog": "bug fixes",
        "hasInstallScript": false,
        "isCompatibleWithClient": true,
        "categorySectionPackageType": 6,
        "restrictProjectFileAccess": 1,
        "projectStatus": 4,
        "renderCacheId": 1741964,
        "fileLegacyMappingId": null,
        "projectId": 238222,
        "parentProjectFileId": null,
        "parentFileLegacyMappingId": null,
        "fileTypeId": null,
        "exposeAsAlternative": {},
        "packageFingerprintId": 304867868,
        "gameVersionDateReleased": "2017-09-18T05:00:00Z",
        "gameVersionMappingId": 1741964,
        "gameVersionId": 6756,
        "gameId": 432,
        "isServerPack": false,
        "serverPackFileId": null
    }}"#,
        dependencies, expose_as_alternative
    )
}

fn category_text() -> String {
    String::from(
        r#"{
        "id": 423,
        "name": "Map and Information",
        "slug": "map-information",
        "avatarUrl": "https://example.org/avatars/map.png",
        "dateModified": "2014-05-08T17:42:23.74Z",
        "parentGameCategoryId": 6,
        "root": 6,
        "gameId": 432
    }"#,
    )
}

#[test]
fn get_addon() {
    let addon = Addon::from_fetch(body(&addon_text())).unwrap();
    assert_eq!(addon.id, Num::U(238222));
    assert_eq!(addon.name, "Test");
    assert_eq!(addon.website_url, "https://example.org/jei");
    assert_eq!(addon.game_id, Num::U(432));
    assert_eq!(addon.download_count, Num::Bits(150000000.0f64.to_bits()));
    assert_eq!(addon.popularity_score, Num::Bits(14012.1f64.to_bits()));
    assert_eq!(addon.status, 4);
    assert_eq!(addon.primary_category_id, 423);
    assert!(addon.authors.is_empty());
    assert!(addon.latest_files.is_empty());
    assert_eq!(addon.category_section.name, "Mods");
    assert_eq!(addon.category_section.extra_include_pattern, None);
    assert_eq!(addon.category_section.game_category_id, 6);
    assert_eq!(addon.game_version_latest_files.len(), 1);
    assert_eq!(addon.game_version_latest_files[0].game_version, "1.12.2");
    assert_eq!(
        addon.game_version_latest_files[0].project_file_id,
        Num::U(2995897)
    );
    assert!(addon.is_featured);
    assert!(addon.is_available);
    assert!(!addon.is_experimental);
    assert_eq!(addon.date_created, "2015-11-23T22:55:53.84Z");
}

#[test]
fn addon_missing_required_field_is_decode_error() {
    let text = addon_text().replace("\"name\": \"Test\",", "");
    match Addon::from_fetch(body(&text)) {
        Err(FetchError::Decode(DecodeError::MissingField(f))) => assert_eq!(f, "name"),
        other => panic!("expected a missing-field decode error, got {:?}", other),
    }
}

#[test]
fn misspelled_experimental_flag_is_the_wire_name() {
    // The correctly spelled member does not satisfy the misspelled wire
    // name the service actually uses.
    let text = addon_text().replace("isExperiemental", "isExperimental");
    match Addon::from_fetch(body(&text)) {
        Err(FetchError::Decode(DecodeError::MissingField(f))) => {
            assert_eq!(f, "isExperiemental")
        }
        other => panic!("expected a missing-field decode error, got {:?}", other),
    }
}

#[test]
fn addon_wrong_member_type_is_decode_error() {
    let text = addon_text().replace("\"authors\": []", "\"authors\": 5");
    match Addon::from_fetch(body(&text)) {
        Err(FetchError::Decode(DecodeError::WrongType(f))) => assert_eq!(f, "authors"),
        other => panic!("expected a wrong-type decode error, got {:?}", other),
    }
}

#[test]
fn out_of_range_integer_is_decode_error() {
    let text = addon_text().replace("\"status\": 4", "\"status\": 4294967296");
    match Addon::from_fetch(body(&text)) {
        Err(FetchError::Decode(DecodeError::WrongType(f))) => assert_eq!(f, "status"),
        other => panic!("expected a wrong-type decode error, got {:?}", other),
    }
}

#[test]
fn transport_error_stays_transport() {
    match Addon::from_fetch(Err(String::from("connection refused"))) {
        Err(FetchError::Transport(msg)) => assert_eq!(msg, "connection refused"),
        other => panic!("expected a transport error, got {:?}", other),
    }
    match Category::from_fetch(Err(String::from("dns failure"))) {
        Err(FetchError::Transport(msg)) => assert_eq!(msg, "dns failure"),
        other => panic!("expected a transport error, got {:?}", other),
    }
}

#[test]
fn unparseable_body_is_decode_error() {
    match Addon::from_fetch(body("{ not json")) {
        Err(FetchError::Decode(DecodeError::Syntax)) => {}
        other => panic!("expected a syntax decode error, got {:?}", other),
    }
}

#[test]
fn get_category() {
    let c = Category::from_fetch(body(&category_text())).unwrap();
    assert_eq!(c.id, Num::U(423));
    assert_eq!(c.name, "Map and Information");
    assert_eq!(c.slug, "map-information");
    assert_eq!(c.parent_game_category_id, Num::U(6));
    assert_eq!(c.root, Num::U(6));
    assert_eq!(c.game_id, Num::U(432));
}

#[test]
fn category_section_length_matches_array() {
    let one = category_text();
    let two = one.replace("\"id\": 423", "\"id\": 424");
    let text = format!("[{},{}]", one, two);
    let v = Category::section_from_fetch(body(&text)).unwrap();
    assert_eq!(v.len(), 2);
    assert_eq!(v[0].id, Num::U(423));
    assert_eq!(v[1].id, Num::U(424));
}

#[test]
fn empty_category_section_is_empty_not_error() {
    let v = Category::section_from_fetch(body("[]")).unwrap();
    assert!(v.is_empty());
}

#[test]
fn category_section_of_non_array_is_decode_error() {
    match Category::section_from_fetch(body(&category_text())) {
        Err(FetchError::Decode(DecodeError::NotAnArray)) => {}
        other => panic!("expected a not-an-array decode error, got {:?}", other),
    }
}

#[test]
fn file_decodes_with_null_alternative() {
    let j = body(&file_text("[]", "null")).unwrap().unwrap();
    let f = File::from_json(&j).unwrap();
    assert_eq!(f.id, Num::U(3043174));
    assert_eq!(f.display_name, "jei 1.12.2");
    assert_eq!(f.file_length, 653181);
    assert!(f.dependencies.is_empty());
    assert!(f.expose_as_alternative.is_none());
    assert_eq!(f.modules.len(), 1);
    assert_eq!(f.modules[0].folder_name, "META-INF");
    assert_eq!(f.modules[0].module_type, 3);
    assert_eq!(f.game_version, vec![String::from("1.12.2")]);
    assert_eq!(f.sortable_game_version.len(), 1);
    assert_eq!(
        f.sortable_game_version[0].game_version_padded,
        "0000000001.0000000012.0000000002"
    );
    assert_eq!(f.install_metadata, None);
    assert_eq!(f.changelog.as_deref(), Some("bug fixes"));
    assert_eq!(f.file_legacy_mapping_id, None);
    assert_eq!(f.server_pack_file_id, None);
}

#[test]
fn file_decodes_nested_dependencies_and_alternative() {
    let dep = file_text("[]", "null").replace("\"id\": 3043174", "\"id\": 1");
    let alt = file_text("[]", "null").replace("\"id\": 3043174", "\"id\": 2");
    let text = file_text(&format!("[{}]", dep), &alt);
    let j = body(&text).unwrap().unwrap();
    let f = File::from_json(&j).unwrap();
    assert_eq!(f.id, Num::U(3043174));
    assert_eq!(f.dependencies.len(), 1);
    assert_eq!(f.dependencies[0].id, Num::U(1));
    let alt_file = (*f.expose_as_alternative).as_ref().unwrap();
    assert_eq!(alt_file.id, Num::U(2));
}

#[test]
fn file_missing_alternative_member_is_decode_error() {
    let text = file_text("[]", "null").replace("\"exposeAsAlternative\": null,", "");
    let j = body(&text).unwrap().unwrap();
    match File::from_json(&j) {
        Err(DecodeError::MissingField(f)) => assert_eq!(f, "exposeAsAlternative"),
        other => panic!("expected a missing-field decode error, got {:?}", other),
    }
}

#[test]
fn author_numbers_keep_sign_and_value() {
    let text = addon_text().replace(
        "\"authors\": []",
        r#""authors": [{
            "name": "mezz",
            "url": "https://example.org/members/mezz",
            "projectId": -2,
            "id": 32358,
            "projectTitleId": null,
            "projectTitleTitle": null,
            "userId": 17072262,
            "twitchId": 125452201
        }]"#,
    );
    let addon = Addon::from_fetch(body(&text)).unwrap();
    assert_eq!(addon.authors.len(), 1);
    assert_eq!(addon.authors[0].name, "mezz");
    assert_eq!(addon.authors[0].project_id, Num::I(-2));
    assert_eq!(addon.authors[0].id, Num::U(32358));
    assert_eq!(addon.authors[0].project_title_id, None);
    assert_eq!(addon.authors[0].project_title_title, None);
}

#[test]
fn addon_urls_are_built_from_the_identifier() {
    assert_eq!(
        twitch_app_api::addon_url(238222),
        "https://addons-ecs.forgesvc.net/api/v2/addon/238222"
    );
    assert_eq!(
        twitch_app_api::category_url(423),
        "https://addons-ecs.forgesvc.net/api/v2/category/423"
    );
    assert_eq!(
        twitch_app_api::category_section_url(0),
        "https://addons-ecs.forgesvc.net/api/v2/category/section/0"
    );
    assert_eq!(
        twitch_app_api::category_section_url(18446744073709551615),
        "https://addons-ecs.forgesvc.net/api/v2/category/section/18446744073709551615"
    );
}
