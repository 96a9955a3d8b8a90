use animus::ids::AssetId;
use animus::project::assets::{
    asset_path, document_uris, ext_for_kind, hex_sha256, model_dir, model_files, percent_decode,
    reference_candidates, referenced_files, AssetKind, AssetStore,
};
use animus::project::value::JsonValue;
use animus::project::error::ProjectError;
use animus::project::json::Checker;
use animus::project::load::{check_schema, schema_gate, CURRENT_SCHEMA_VERSION};
use animus::text::decimal_text;

const ABC_SHA: &str = "ba7816bf8f01cfea414140de5dae2223b00361a396177a9cb410ff61f20015ad";
const EMPTY_SHA: &str = "e3b0c44298fc1c149afbf4c8996fb92427ae41e4649b934ca495991b7852b855";

fn project_text(version: &str) -> String {
    format!("{{\n  \"schema_version\": {version},\n  \"meta\": {{ \"name\": \"Sample Show\" }}\n}}")
}

// ── the schema gate ─────────────────────────────────────────────────────

#[test]
fn a_newer_schema_version_is_refused_with_a_clear_error() {
    match check_schema(&project_text("99")) {
        Err(ProjectError::SchemaTooNew { found: 99, supported: 1 }) => {}
        other => panic!("expected SchemaTooNew, got {other:?}"),
    }
}

#[test]
fn truncated_json_is_an_error_not_a_panic() {
    let r = check_schema("{ \"schema_version\": 1, \"me");
    assert!(r.is_err());
    assert!(matches!(r, Err(ProjectError::Json(_))));
}

#[test]
fn the_current_schema_version_is_read() {
    assert_eq!(check_schema(&project_text("1")).unwrap(), CURRENT_SCHEMA_VERSION);
}

#[test]
fn a_file_without_a_schema_version_is_a_migration_from_zero() {
    match check_schema("{ \"meta\": {} }") {
        Err(ProjectError::Migration { from: 0, to: 1, reason }) => {
            assert_eq!(reason, "project.json has no schema_version field");
        }
        other => panic!("expected Migration, got {other:?}"),
    }
}

#[test]
fn an_older_schema_version_asks_for_a_migration_that_does_not_exist() {
    match check_schema(&project_text("0")) {
        Err(ProjectError::Migration { from: 0, to: 1, reason }) => {
            assert_eq!(reason, "no migrations are implemented yet");
        }
        other => panic!("expected Migration, got {other:?}"),
    }
}

#[test]
fn a_non_numeric_schema_version_counts_as_missing() {
    assert!(matches!(
        check_schema(&project_text("\"1\"")),
        Err(ProjectError::Migration { from: 0, .. })
    ));
}

#[test]
fn a_schema_version_too_large_for_u32_is_refused_not_wrapped() {
    // 2^32 + 1 must not be read as version 1.
    match check_schema(&project_text("4294967297")) {
        Err(ProjectError::SchemaTooNew { found, supported: 1 }) => assert_eq!(found, u32::MAX),
        other => panic!("expected SchemaTooNew, got {other:?}"),
    }
    match schema_gate(Some(4294967296)) {
        Err(ProjectError::SchemaTooNew { found, supported: 1 }) => assert_eq!(found, u32::MAX),
        other => panic!("expected SchemaTooNew, got {other:?}"),
    }
    match schema_gate(Some(u32::MAX as u64)) {
        Err(ProjectError::SchemaTooNew { found, supported: 1 }) => assert_eq!(found, u32::MAX),
        other => panic!("expected SchemaTooNew, got {other:?}"),
    }
}

#[test]
fn the_gate_answers_every_version_class() {
    assert_eq!(schema_gate(Some(1)).unwrap(), 1);
    assert!(matches!(schema_gate(None), Err(ProjectError::Migration { from: 0, to: 1, .. })));
    assert!(matches!(schema_gate(Some(0)), Err(ProjectError::Migration { from: 0, to: 1, .. })));
    assert!(matches!(
        schema_gate(Some(2)),
        Err(ProjectError::SchemaTooNew { found: 2, supported: 1 })
    ));
}

// ── error messages ──────────────────────────────────────────────────────

#[test]
fn each_error_says_what_went_wrong() {
    let e = ProjectError::SchemaTooNew { found: 99, supported: 1 };
    assert_eq!(e.message(), "project schema version 99 is newer than the 1 this build supports");
    let e = ProjectError::Migration { from: 0, to: 1, reason: "gone".into() };
    assert_eq!(e.message(), "migration from schema 0 to 1 failed: gone");
    let e = ProjectError::NonFiniteFloat { path: "$.solver.global_damping".into() };
    assert_eq!(e.message(), "non-finite float at $.solver.global_damping");
    let io = std::io::Error::new(std::io::ErrorKind::NotFound, "no such file");
    let e = ProjectError::Io(io);
    assert_eq!(e.message(), "I/O error: no such file");
    match check_schema("{") {
        Err(e) => assert!(e.message().starts_with("JSON error: ")),
        Ok(_) => panic!("a lone brace is not a document"),
    }
}

#[test]
fn decimal_text_writes_numbers_without_padding() {
    assert_eq!(decimal_text(0), "0");
    assert_eq!(decimal_text(7), "7");
    assert_eq!(decimal_text(1234567890), "1234567890");
    assert_eq!(decimal_text(u64::MAX), "18446744073709551615");
}

// ── paths into the document ─────────────────────────────────────────────

#[test]
fn a_checker_names_the_path_it_has_walked() {
    let c = Checker::root();
    assert_eq!(c.path, "$");
    let c = c.field("puppets").field("7").field("skeleton").field("joints").index(2).field("rest");
    assert_eq!(c.path, "$.puppets.7.skeleton.joints[2].rest");
    assert_eq!(Checker::root().field("a").index(3).path, "$.a[3]");
}

// ── hashing and the store's layout ──────────────────────────────────────

#[test]
fn the_asset_address_is_the_lowercase_sha256() {
    assert_eq!(hex_sha256(b"abc"), ABC_SHA);
    assert_eq!(hex_sha256(b""), EMPTY_SHA);
    let h = hex_sha256(b"not really a png, but bytes are bytes");
    assert_eq!(h.len(), 64);
    assert!(h.chars().all(|c| c.is_ascii_hexdigit() && !c.is_ascii_uppercase()));
}

#[test]
fn each_kind_has_its_own_extension() {
    assert_eq!(ext_for_kind(AssetKind::Image), "png");
    assert_eq!(ext_for_kind(AssetKind::Gltf), "glb");
    assert_eq!(ext_for_kind(AssetKind::Font), "ttf");
}

#[test]
fn an_asset_lives_in_a_bucket_named_for_its_hash() {
    let p = asset_path("MyShow.animus", ABC_SHA, AssetKind::Image);
    assert_eq!(p.root, "MyShow.animus");
    assert_eq!(p.parts, vec!["assets".to_string(), "ba".to_string(), format!("{ABC_SHA}.png")]);
    let d = model_dir("MyShow.animus", ABC_SHA);
    assert_eq!(d.parts, vec!["assets".to_string(), "ba".to_string(), ABC_SHA.to_string()]);
    // A hash shorter than a bucket name is its own bucket.
    let short = asset_path("r", "a", AssetKind::Font);
    assert_eq!(short.parts, vec!["assets".to_string(), "a".to_string(), "a.ttf".to_string()]);
}

#[test]
fn assets_are_stored_by_content_hash() {
    let store = AssetStore::new("MyShow.animus");
    let bytes = b"not really a png, but bytes are bytes";
    let stored = store.import(bytes, "pic.png", AssetKind::Image, AssetId(2));
    let a = &stored.asset;
    assert_eq!(a.sha256.len(), 64);
    assert_eq!(a.sha256, hex_sha256(bytes));
    assert_eq!(a.original_name, "pic.png");
    assert_eq!(a.id, AssetId(2));
    assert_eq!(a.kind, AssetKind::Image);
    assert_eq!(a.byte_len, bytes.len() as u64);
    assert_eq!(a.width, None);
    assert_eq!(a.height, None);
    assert_eq!(stored.dest.root, "MyShow.animus");
    assert_eq!(
        stored.dest.parts,
        vec!["assets".to_string(), a.sha256[..2].to_string(), format!("{}.png", a.sha256)]
    );
    let found = store.path_for(a);
    assert_eq!(found.root, stored.dest.root);
    assert_eq!(found.parts, stored.dest.parts);
}

#[test]
fn importing_identical_bytes_twice_stores_one_file() {
    let store = AssetStore::new("MyShow.animus");
    let a = store.import(b"same bytes", "a.png", AssetKind::Image, AssetId(2));
    let b = store.import(b"same bytes", "b.png", AssetKind::Image, AssetId(3));
    assert_eq!(a.asset.sha256, b.asset.sha256);
    assert_eq!(a.dest.parts, b.dest.parts);
    assert_eq!(store.path_for(&a.asset).parts, store.path_for(&b.asset).parts);
    // Two imports still make two references, each with its own id.
    assert_ne!(a.asset.id, b.asset.id);
}

#[test]
fn different_bytes_land_in_different_files() {
    let store = AssetStore::new("MyShow.animus");
    let a = store.import(b"abc", "a.png", AssetKind::Image, AssetId(1));
    let b = store.import(b"", "b.png", AssetKind::Image, AssetId(2));
    assert_eq!(a.asset.sha256, ABC_SHA);
    assert_eq!(b.asset.sha256, EMPTY_SHA);
    assert_ne!(a.dest.parts, b.dest.parts);
}

const GLTF: &str = r#"{
  "asset": { "version": "2.0" },
  "buffers": [
    { "uri": "mesh.bin", "byteLength": 10 },
    { "uri": "data:application/octet-stream;base64,AAAA" },
    { "uri": "mesh.bin" }
  ],
  "images": [
    { "uri": "textures/base%20colour.png" },
    { "uri": "https://example.com/remote.png" },
    { "uri": "../outside.png" },
    { "uri": "/etc/passwd" },
    { "bufferView": 0 },
    { "uri": 7 }
  ]
}"#;

#[test]
fn a_model_is_filed_under_its_own_name_in_a_directory_named_for_its_hash() {
    let store = AssetStore::new("MyShow.animus");
    let stored = store.import_model(GLTF.as_bytes(), "robot.gltf", AssetId(5));
    let sha = hex_sha256(GLTF.as_bytes());
    assert_eq!(stored.asset.sha256, sha);
    assert_eq!(stored.asset.kind, AssetKind::Gltf);
    assert_eq!(stored.asset.original_name, "robot.gltf");
    assert_eq!(stored.dir.parts, vec!["assets".to_string(), sha[..2].to_string(), sha.clone()]);
    assert_eq!(
        stored.dest.parts,
        vec!["assets".to_string(), sha[..2].to_string(), sha.clone(), "robot.gltf".to_string()]
    );
    assert_eq!(store.path_for(&stored.asset).parts, stored.dest.parts);
    assert_eq!(
        stored.references,
        vec!["mesh.bin".to_string(), "textures/base colour.png".to_string()]
    );
}

#[test]
fn a_model_names_only_the_local_files_it_needs() {
    assert_eq!(
        referenced_files(GLTF.as_bytes()),
        vec!["mesh.bin".to_string(), "textures/base colour.png".to_string()]
    );
    // Before the platform's path rules, every local uri is a candidate, in
    // document order and as often as it occurs.
    assert_eq!(
        reference_candidates(GLTF.as_bytes()),
        vec![
            "mesh.bin".to_string(),
            "mesh.bin".to_string(),
            "textures/base colour.png".to_string(),
            "../outside.png".to_string(),
            "/etc/passwd".to_string(),
        ]
    );
}

#[test]
fn plain_relative_references_all_come_along_once_in_order() {
    let gltf = r#"{
      "buffers": [ { "uri": "body.bin" }, { "uri": "parts/arm.bin" } ],
      "images": [ { "uri": "skin.png" }, { "uri": "body.bin" }, { "uri": "parts/arm%20left.png" } ]
    }"#;
    assert_eq!(
        referenced_files(gltf.as_bytes()),
        vec![
            "body.bin".to_string(),
            "parts/arm.bin".to_string(),
            "skin.png".to_string(),
            "parts/arm left.png".to_string(),
        ]
    );
}

#[test]
fn a_binary_model_or_a_broken_file_refers_to_nothing() {
    assert!(referenced_files(b"glTF\x02\x00\x00\x00").is_empty());
    assert!(referenced_files(b"{ \"buffers\": [").is_empty());
    assert!(referenced_files(b"{ \"buffers\": 3, \"images\": {} }").is_empty());
    assert!(reference_candidates(b"[]").is_empty());
}

#[test]
fn percent_escapes_are_decoded_and_anything_else_is_kept() {
    assert_eq!(percent_decode("base%20colour.png"), "base colour.png");
    assert_eq!(percent_decode("plain.png"), "plain.png");
    assert_eq!(percent_decode("%zz"), "%zz");
    assert_eq!(percent_decode("%4"), "%4");
    assert_eq!(percent_decode("a%"), "a%");
    assert_eq!(percent_decode("%41%42"), "AB");
    assert_eq!(percent_decode("%E2%9C%93"), "\u{2713}");
    // An escape is two hex digits: a sign is not one.
    assert_eq!(percent_decode("%+A"), "%+A");
    assert_eq!(percent_decode("%+1"), "%+1");
    assert_eq!(percent_decode("100%"), "100%");
    // A text with no escape in it comes back as it went in, whatever it holds.
    assert_eq!(percent_decode("na\u{ef}ve \u{2713}.png"), "na\u{ef}ve \u{2713}.png");
    // A decoded byte that is not UTF-8 becomes the replacement character.
    assert_eq!(percent_decode("%FF"), "\u{FFFD}");
}

#[test]
fn uris_that_climb_out_are_refused_and_the_rest_kept() {
    let gltf = r#"{"buffers":[{"uri":"a%20b.bin"},{"uri":"data:x"}],"images":[{"uri":"../up.png"},{"uri":"http://h/t.png"},{"uri":"tex.png"},{"uri":"a%20b.bin"}]}"#;
    assert_eq!(referenced_files(gltf.as_bytes()), vec!["a b.bin".to_string(), "tex.png".to_string()]);
    let deep = r#"{"images":[{"uri":"ok/../../secrets"},{"uri":"x/.."},{"uri":"fine.png"}]}"#;
    assert_eq!(referenced_files(deep.as_bytes()), vec!["fine.png".to_string()]);
}

fn item(uri: &str) -> JsonValue {
    JsonValue::Object(vec![("uri".to_string(), JsonValue::Text(uri.to_string()))])
}

#[test]
fn a_parsed_document_gives_its_files_directly() {
    let doc = JsonValue::Object(vec![
        ("buffers".to_string(), JsonValue::Array(vec![item("mesh.bin"), item("data:abc")])),
        (
            "images".to_string(),
            JsonValue::Array(vec![item("../up.png"), item("skin%20tone.png"), item("mesh.bin")]),
        ),
    ]);
    assert_eq!(
        document_uris(&doc),
        vec![
            "mesh.bin".to_string(),
            "../up.png".to_string(),
            "skin tone.png".to_string(),
            "mesh.bin".to_string(),
        ]
    );
    assert_eq!(model_files(&doc), vec!["mesh.bin".to_string(), "skin tone.png".to_string()]);
    assert!(model_files(&JsonValue::Null).is_empty());
}

#[test]
fn relative_uris_keep_their_files_whatever_their_spelling() {
    let gltf = r#"{"buffers":[{"uri":"./scene.bin"},{"uri":"a//b.bin"}],
        "images":[{"uri":"tex/./a.png"},{"uri":"maps/"},{"uri":"a/b.bin"},{"uri":"scene.bin"},{"uri":"x/../y.png"}]}"#;
    // `a/b.bin` is the same path as `a//b.bin`; `./scene.bin` (which starts
    // with the current directory) is not the same path as `scene.bin`.
    assert_eq!(
        referenced_files(gltf.as_bytes()),
        vec![
            "./scene.bin".to_string(),
            "a//b.bin".to_string(),
            "tex/./a.png".to_string(),
            "maps/".to_string(),
            "scene.bin".to_string(),
        ]
    );
}

#[test]
fn an_import_hands_back_a_hash_path_for_can_use() {
    let store = AssetStore::new("MyShow.animus");
    let stored = store.import(b"bytes", "x.png", AssetKind::Image, AssetId(1));
    assert_eq!(stored.asset.sha256.len(), 64);
    assert_eq!(store.path_for(&stored.asset).parts, stored.dest.parts);
}

#[test]
fn one_refused_uri_costs_only_itself() {
    let gltf = r#"{"buffers":[{"uri":"a.bin"},{"uri":"/etc/passwd"},{"uri":"b.bin"}],"images":[{"uri":"../x.png"},{"uri":"c.png"}]}"#;
    assert_eq!(
        referenced_files(gltf.as_bytes()),
        vec!["a.bin".to_string(), "b.bin".to_string(), "c.png".to_string()]
    );
}
