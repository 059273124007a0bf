use hatchery::config::{CloudinaryFetchUrl, CloudinaryUploadConfig};
use hatchery::forms::{AssetSource, Creation};
use hatchery::hexcolor::HexColor;
use hatchery::pipeline::{CreationAction, Failure, InsertError, Phase, Pipeline, StoreFault};

fn cfg() -> CloudinaryUploadConfig {
    CloudinaryUploadConfig::new(
        "key".to_string(),
        "sec".to_string(),
        "pre/".to_string(),
        "acct",
    )
}

fn creation(name: &str, image: AssetSource) -> Creation {
    Creation {
        name: name.to_string(),
        description: "a description".to_string(),
        color: HexColor::from_value("#a1b2c3").unwrap(),
        image,
    }
}

fn check_slug(a: CreationAction) -> String {
    match a {
        CreationAction::CheckSlug(s) => s,
        other => panic!("expected CheckSlug, got {other:?}"),
    }
}

#[test]
fn config_urls_are_assembled_from_the_account_name() {
    let c = cfg();
    assert_eq!(c.upload_url, "https://api.cloudinary.com/v1_1/acct/image/upload/");
    assert_eq!(c.fetch_url, "https://res.cloudinary.com/acct/image/upload/pre//");
    let f = CloudinaryFetchUrl::from_config(&c);
    assert_eq!(f.0, c.fetch_url);
}

#[test]
fn scenario_free_slug_uploads_and_inserts() {
    let source = AssetSource::AlreadyOnDisk("/in/goose.png".to_string());
    let (mut p, a) = Pipeline::start(cfg(), "/tmp/".to_string(), creation("Silly Goose", source));
    assert_eq!(check_slug(a), "Silly-Goose");

    let a = p.on_slug_check(Ok(false));
    let req = match a {
        CreationAction::SubmitUpload(req) => req,
        other => panic!("expected SubmitUpload, got {other:?}"),
    };
    assert_eq!(req.url, "https://api.cloudinary.com/v1_1/acct/image/upload/");
    assert_eq!(req.api_key, "key");
    assert_eq!(req.public_id, "pre/Silly-Goose");
    assert_eq!(req.file_path, "/in/goose.png");
    assert_eq!(req.file_name, "Silly-Goose");
    assert!(req.timestamp.parse::<u64>().is_ok());
    assert_eq!(req.signature.len(), 40);
    assert!(req.signature.chars().all(|c| c.is_ascii_hexdigit() && !c.is_ascii_uppercase()));
    // the credential is exactly the signature of its own fields
    assert_eq!(
        req.signature,
        hatchery::signer::sign(&req.public_id, &req.timestamp, "sec")
    );

    let a = p.on_uploaded(true);
    let goose = match a {
        CreationAction::InsertRecord(g) => g,
        other => panic!("expected InsertRecord, got {other:?}"),
    };
    assert_eq!(goose.name, "Silly Goose");
    assert_eq!(goose.description, "a description");
    assert_eq!(goose.color, "#a1b2c3");
    assert_eq!(goose.slug, "Silly-Goose");
    assert_eq!(goose.likes, 0);
    assert_eq!(
        goose.image,
        "https://res.cloudinary.com/acct/image/upload/pre//Silly-Goose"
    );
    assert!(goose.timestamp > 0);

    let a = p.on_inserted(Ok(()));
    assert!(matches!(a, CreationAction::Succeed(s) if s == "Silly-Goose"));
    assert!(matches!(&p.phase, Phase::Done { slug } if slug == "Silly-Goose"));
}

#[test]
fn scenario_empty_name_falls_back_and_extends_on_one_collision() {
    let source = AssetSource::AlreadyOnDisk("/in/goose.png".to_string());
    let (mut p, a) = Pipeline::start(cfg(), "/tmp/".to_string(), creation("", source));
    let first = check_slug(a);
    assert_eq!(first.chars().count(), 5);
    assert!(first.chars().all(|c| c.is_ascii_alphanumeric()));

    let a = p.on_slug_check(Ok(true));
    let second = check_slug(a);
    assert_eq!(second.chars().count(), 6);
    assert!(second.starts_with(&first));
    assert!(second.chars().all(|c| c.is_ascii_alphanumeric()));

    let a = p.on_slug_check(Ok(false));
    assert!(matches!(a, CreationAction::SubmitUpload(req) if req.file_name == second));
}

#[test]
fn scenario_five_collisions_exhaust_without_any_upload() {
    let source = AssetSource::AlreadyOnDisk("/in/goose.png".to_string());
    let (mut p, a) = Pipeline::start(cfg(), "/tmp/".to_string(), creation("Silly Goose", source));
    let mut slug = check_slug(a);
    for _ in 0..4 {
        // every intermediate action is another existence check: the
        // uploader is never invoked
        let next = check_slug(p.on_slug_check(Ok(true)));
        assert_eq!(next.chars().count(), slug.chars().count() + 1);
        slug = next;
    }
    let a = p.on_slug_check(Ok(true));
    assert!(matches!(a, CreationAction::Fail(Failure::SlugExhausted)));
    assert!(matches!(p.phase, Phase::Failed { reason: Failure::SlugExhausted }));
}

#[test]
fn staged_asset_is_persisted_then_cleaned_up_after_a_failed_upload() {
    let (mut p, a) = Pipeline::start(cfg(), "/tmp/".to_string(), creation("Silly Goose", AssetSource::InMemory));
    assert_eq!(check_slug(a), "Silly-Goose");

    let a = p.on_slug_check(Ok(false));
    assert!(matches!(&a, CreationAction::PersistTemp(path) if path == "/tmp/Silly-Goose"));

    let a = p.on_persisted(true);
    assert!(matches!(&a, CreationAction::SubmitUpload(req) if req.file_path == "/tmp/Silly-Goose"));

    // the upload fails: the temporary file is released before the failure
    // is reported
    let a = p.on_uploaded(false);
    assert!(matches!(&a, CreationAction::DeleteTemp(path) if path == "/tmp/Silly-Goose"));

    let a = p.on_deleted();
    assert!(matches!(a, CreationAction::Fail(Failure::UploadFailure)));
    assert!(matches!(p.phase, Phase::Failed { reason: Failure::UploadFailure }));
}

#[test]
fn staged_asset_is_cleaned_up_after_a_successful_upload_too() {
    let (mut p, a) = Pipeline::start(cfg(), "/tmp/".to_string(), creation("Silly Goose", AssetSource::InMemory));
    assert_eq!(check_slug(a), "Silly-Goose");
    let _ = p.on_slug_check(Ok(false));
    let _ = p.on_persisted(true);

    let a = p.on_uploaded(true);
    assert!(matches!(&a, CreationAction::DeleteTemp(path) if path == "/tmp/Silly-Goose"));

    let a = p.on_deleted();
    assert!(matches!(a, CreationAction::InsertRecord(g) if g.slug == "Silly-Goose"));
    let a = p.on_inserted(Ok(()));
    assert!(matches!(a, CreationAction::Succeed(s) if s == "Silly-Goose"));
}

#[test]
fn failed_materialization_aborts_with_nothing_to_clean() {
    let (mut p, _) = Pipeline::start(cfg(), "/tmp/".to_string(), creation("Silly Goose", AssetSource::InMemory));
    let _ = p.on_slug_check(Ok(false));
    let a = p.on_persisted(false);
    assert!(matches!(a, CreationAction::Fail(Failure::UploadFailure)));
}

#[test]
fn store_fault_on_lookup_aborts_before_any_upload() {
    let source = AssetSource::AlreadyOnDisk("/in/goose.png".to_string());
    let (mut p, _) = Pipeline::start(cfg(), "/tmp/".to_string(), creation("Silly Goose", source));
    let a = p.on_slug_check(Err(StoreFault));
    assert!(matches!(a, CreationAction::Fail(Failure::StoreError)));
}

#[test]
fn failed_direct_upload_aborts_without_cleanup() {
    let source = AssetSource::AlreadyOnDisk("/in/goose.png".to_string());
    let (mut p, _) = Pipeline::start(cfg(), "/tmp/".to_string(), creation("Silly Goose", source));
    let _ = p.on_slug_check(Ok(false));
    let a = p.on_uploaded(false);
    assert!(matches!(a, CreationAction::Fail(Failure::UploadFailure)));
}

#[test]
fn duplicate_key_on_insert_feeds_back_into_allocation() {
    let source = AssetSource::AlreadyOnDisk("/in/goose.png".to_string());
    let (mut p, _) = Pipeline::start(cfg(), "/tmp/".to_string(), creation("Silly Goose", source));
    let _ = p.on_slug_check(Ok(false));
    let _ = p.on_uploaded(true);

    let a = p.on_inserted(Err(InsertError::DuplicateKey));
    let retry = check_slug(a);
    assert_eq!(retry.chars().count(), "Silly-Goose".chars().count() + 1);
    assert!(retry.starts_with("Silly-Goose"));

    // the retried candidate goes through the whole sequence again
    let a = p.on_slug_check(Ok(false));
    assert!(matches!(a, CreationAction::SubmitUpload(req) if req.file_name == retry));
}

#[test]
fn other_insert_error_aborts_as_store_error() {
    let source = AssetSource::AlreadyOnDisk("/in/goose.png".to_string());
    let (mut p, _) = Pipeline::start(cfg(), "/tmp/".to_string(), creation("Silly Goose", source));
    let _ = p.on_slug_check(Ok(false));
    let _ = p.on_uploaded(true);
    let a = p.on_inserted(Err(InsertError::Other));
    assert!(matches!(a, CreationAction::Fail(Failure::StoreError)));
}

#[test]
fn duplicate_key_with_spent_budget_is_exhaustion() {
    let source = AssetSource::AlreadyOnDisk("/in/goose.png".to_string());
    let (mut p, _) = Pipeline::start(cfg(), "/tmp/".to_string(), creation("Silly Goose", source));
    for _ in 0..4 {
        let _ = p.on_slug_check(Ok(true));
    }
    let _ = p.on_slug_check(Ok(false));
    let _ = p.on_uploaded(true);
    let a = p.on_inserted(Err(InsertError::DuplicateKey));
    assert!(matches!(a, CreationAction::Fail(Failure::SlugExhausted)));
}
