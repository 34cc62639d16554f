use barforge::uploads::{
    publish_next, publish_start, PublishAction, PublishStep, RegistryReply,
    has_allowed_extension, is_https_url, is_semver, screenshot_upload_url, slugify,
    turnstile_check, turnstile_secret_from, turnstile_verify_url, ScreenshotFields, TurnstileCheck,
    UploadFields, BAD_REQUEST, TURNSTILE_VERIFY_URL,
};

#[test]
fn has_allowed_extension_accepts_tarballs_in_any_case() {
    assert!(has_allowed_extension("clock.tar.gz"));
    assert!(has_allowed_extension("CLOCK.TGZ"));
    assert!(!has_allowed_extension("clock.zip"));
    assert!(!has_allowed_extension("clock.gz"));
}

#[test]
fn is_semver_requires_three_numeric_parts() {
    assert!(is_semver("1.2.3"));
    assert!(is_semver("1.2.3-beta.1"));
    assert!(is_semver("10.20.30+build"));
    assert!(!is_semver("1.2"));
    assert!(!is_semver("1.2.3.4"));
    assert!(!is_semver("1.x.3"));
    assert!(!is_semver("1..3"));
    assert!(!is_semver(""));
}

#[test]
fn is_https_url_requires_https_and_host() {
    assert!(is_https_url("https://github.com/barforge/clock"));
    assert!(!is_https_url("http://github.com/barforge/clock"));
    assert!(!is_https_url("not a url"));
    assert!(!is_https_url("mailto:octo@example.com"));
}

#[test]
fn slugify_collapses_separators_and_lowercases() {
    assert_eq!(slugify("Weather Wttr"), Some("weather-wttr".to_string()));
    assert_eq!(slugify("  CPU -- Monitor!! "), Some("cpu-monitor".to_string()));
    assert_eq!(slugify("Zoë 2"), Some("zo-2".to_string()));
    assert_eq!(slugify("!!!"), None);
    assert_eq!(slugify(""), None);
}

fn filled_fields() -> UploadFields {
    let mut fields = UploadFields::new();
    fields.record_text("name", "  Weather Wttr ");
    fields.record_text("description", "Forecasts");
    fields.record_text("category", "weather");
    fields.record_text("version", "1.0.0");
    fields.record_text("license", "MIT");
    fields.record_text("repo_url", "https://github.com/barforge/weather");
    fields.record_text("changelog", "   ");
    fields.record_text("unknown", "ignored");
    assert_eq!(
        fields.record_package(Some("weather.tar.gz"), None, vec![1, 2, 3]),
        Ok(())
    );
    fields
}

#[test]
fn upload_fields_build_module_upload() {
    let upload = filled_fields().into_upload("octo").ok().expect("accepted");
    assert_eq!(upload.uuid, "weather-wttr@octo");
    assert_eq!(upload.name, "Weather Wttr");
    assert_eq!(upload.package.content_type, "application/octet-stream");
    assert_eq!(upload.package.bytes, vec![1, 2, 3]);
    assert!(upload.changelog.is_none());
}

#[test]
fn upload_fields_reject_bad_version_and_missing_package() {
    let mut fields = filled_fields();
    fields.record_text("version", "v1");
    assert_eq!(fields.into_upload("octo").err(), Some(BAD_REQUEST));

    let mut fields = UploadFields::new();
    fields.record_text("name", "Clock");
    assert_eq!(fields.into_upload("octo").err(), Some(BAD_REQUEST));
}

#[test]
fn upload_fields_reject_long_name_and_unsluggable_name() {
    let mut fields = filled_fields();
    fields.record_text("name", &"a".repeat(101));
    assert_eq!(fields.into_upload("octo").err(), Some(BAD_REQUEST));
    let mut fields = filled_fields();
    fields.record_text("name", "!!!");
    assert_eq!(fields.into_upload("octo").err(), Some(BAD_REQUEST));
}

#[test]
fn record_package_checks_name_and_size() {
    let mut fields = UploadFields::new();
    assert_eq!(fields.record_package(Some("x.zip"), None, vec![1]), Err(BAD_REQUEST));
    assert_eq!(fields.record_package(None, None, vec![1]), Err(BAD_REQUEST));
    assert_eq!(fields.record_package(Some("x.tgz"), None, Vec::new()), Err(BAD_REQUEST));
    assert!(fields.package.is_none());
    assert_eq!(
        fields.record_package(Some("x.tgz"), Some("application/gzip"), vec![7]),
        Ok(())
    );
    assert_eq!(fields.package.as_ref().map(|p| p.content_type.as_str()), Some("application/gzip"));
}

#[test]
fn screenshot_fields_accept_images_only() {
    let mut fields = ScreenshotFields::new();
    assert_eq!(fields.record_screenshot(Some("image/gif"), vec![1]), Err(BAD_REQUEST));
    assert_eq!(fields.record_screenshot(None, vec![1]), Err(BAD_REQUEST));
    fields.record_alt_text("   ");
    assert!(fields.alt_text.is_none());
    fields.record_alt_text("  Weather bar ");
    assert_eq!(fields.record_screenshot(Some("image/png"), vec![9, 9]), Ok(()));
    let (image, alt) = fields.into_parts().ok().expect("image present");
    assert_eq!(image.content_type, "image/png");
    assert_eq!(alt.as_deref(), Some("Weather bar"));
    assert_eq!(ScreenshotFields::new().into_parts().err(), Some(BAD_REQUEST));
}

#[test]
fn screenshot_upload_url_appends_alt_text() {
    assert_eq!(
        screenshot_upload_url("https://api.barforge.dev/", "clock@barforge", None),
        Ok("https://api.barforge.dev/api/v1/modules/clock@barforge/screenshots".to_string())
    );
    assert_eq!(
        screenshot_upload_url("https://api.barforge.dev", "clock@barforge", Some("a b&c")),
        Ok("https://api.barforge.dev/api/v1/modules/clock@barforge/screenshots?alt_text=a+b%26c"
            .to_string())
    );
}

#[test]
fn turnstile_verify_url_defaults_and_normalises_paths() {
    assert_eq!(turnstile_verify_url(None), TURNSTILE_VERIFY_URL);
    assert_eq!(
        turnstile_verify_url(Some("http://127.0.0.1:9000")),
        "http://127.0.0.1:9000/turnstile/v0/siteverify"
    );
    assert_eq!(
        turnstile_verify_url(Some("http://127.0.0.1:9000/")),
        "http://127.0.0.1:9000/turnstile/v0/siteverify"
    );
    assert_eq!(
        turnstile_verify_url(Some("http://127.0.0.1:9000//custom/verify")),
        "http://127.0.0.1:9000/custom/verify"
    );
    assert_eq!(turnstile_verify_url(Some("not a url")), "not a url");
}

#[test]
fn turnstile_secret_is_trimmed_and_blank_means_none() {
    assert_eq!(turnstile_secret_from(Some("  s3cret \n")), Some("s3cret".to_string()));
    assert_eq!(turnstile_secret_from(Some("   ")), None);
    assert_eq!(turnstile_secret_from(None), None);
}

#[test]
fn turnstile_check_needs_an_answer_only_with_a_secret() {
    assert_eq!(turnstile_check(false, &None), TurnstileCheck::Skip);
    assert_eq!(turnstile_check(true, &Some("token".to_string())), TurnstileCheck::Verify);
    assert_eq!(turnstile_check(true, &None), TurnstileCheck::Reject);
}

#[test]
fn publishing_creates_uploads_then_publishes() {
    let base = "https://api.barforge.dev/";
    let first = publish_start(base, "clock@octo", "1.0.0");
    assert_eq!(
        first,
        PublishAction::Send {
            step: PublishStep::Create,
            url: "https://api.barforge.dev/api/v1/modules".to_string()
        }
    );
    let ok = RegistryReply::Answered { status: 201, content_length: None };
    assert_eq!(
        publish_next(PublishStep::Create, &ok, base, "clock@octo", "1.0.0"),
        PublishAction::Send {
            step: PublishStep::Upload,
            url: "https://api.barforge.dev/api/v1/modules/clock@octo/versions/1.0.0/upload"
                .to_string()
        }
    );
    assert_eq!(
        publish_next(PublishStep::Upload, &ok, base, "clock@octo", "1.0.0"),
        PublishAction::Send {
            step: PublishStep::Publish,
            url: "https://api.barforge.dev/api/v1/modules/clock@octo/versions/1.0.0/publish"
                .to_string()
        }
    );
    assert_eq!(
        publish_next(PublishStep::Publish, &ok, base, "clock@octo", "1.0.0"),
        PublishAction::Done(200)
    );
}

#[test]
fn publishing_stops_on_the_first_failure() {
    let conflict = RegistryReply::Answered { status: 409, content_length: Some("12".to_string()) };
    assert_eq!(
        publish_next(PublishStep::Create, &conflict, "b", "u", "v"),
        PublishAction::Fail(409)
    );
    let empty = RegistryReply::Answered { status: 500, content_length: Some("0".to_string()) };
    assert_eq!(publish_next(PublishStep::Upload, &empty, "b", "u", "v"), PublishAction::Fail(502));
    let denied = RegistryReply::Answered { status: 403, content_length: None };
    assert_eq!(publish_next(PublishStep::Publish, &denied, "b", "u", "v"), PublishAction::Fail(403));
    assert_eq!(
        publish_next(PublishStep::Create, &RegistryReply::Unreachable, "b", "u", "v"),
        PublishAction::Fail(502)
    );
}
