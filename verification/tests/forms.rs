use barforge::forms::{
    account_controls,
    create_collection_request, update_collection_request, CollectionRequest,
    field_error_message, form_value, profile_form_values, profile_request_spec,
    update_profile_request, upload_form_values, upload_request_spec, validate_profile_form,
    validate_upload_form, FieldError, FormValue, ProfileFormValues, UploadFormValues,
};

#[test]
fn upload_form_requires_expected_fields() {
    let errors = validate_upload_form(&UploadFormValues::default());

    let messages: Vec<&str> = errors.iter().map(|error| error.message).collect();
    assert!(messages.contains(&"Module name is required."));
    assert!(messages.contains(&"Description is required."));
    assert!(messages.contains(&"Category is required."));
    assert!(messages.contains(&"Repository URL is required."));
    assert!(messages.contains(&"Version is required."));
    assert!(messages.contains(&"License is required."));
    assert!(messages.contains(&"Package file is required."));
}

#[test]
fn upload_form_requires_https_repo_url() {
    let values = UploadFormValues {
        name: "Clock".to_string(),
        description: "Minimal clock".to_string(),
        category: "time".to_string(),
        repo_url: "http://example.com".to_string(),
        version: "1.0.0".to_string(),
        license: "MIT".to_string(),
        package_file: "clock.tar.gz".to_string(),
    };
    let errors = validate_upload_form(&values);

    assert!(errors.iter().any(|error| {
        error.field == "repo_url" && error.message == "Repository URL must start with https://"
    }));
}

#[test]
fn upload_form_accepts_complete_values() {
    let values = UploadFormValues {
        name: "Clock".to_string(),
        description: "Minimal clock".to_string(),
        category: "time".to_string(),
        repo_url: "https://example.com".to_string(),
        version: "1.0.0".to_string(),
        license: "MIT".to_string(),
        package_file: "clock.tar.gz".to_string(),
    };
    assert!(validate_upload_form(&values).is_empty());
}

#[test]
fn upload_request_spec_matches_routes() {
    let spec = upload_request_spec();

    assert_eq!(spec.upload_endpoint, "/api/upload");
    assert_eq!(spec.csrf_endpoint, "/api/csrf-token");
    assert_eq!(spec.csrf_header, "x-csrf-token");
    assert_eq!(spec.turnstile_field, "cf-turnstile-response");
}

#[test]
fn profile_form_rejects_long_display_name() {
    let values = ProfileFormValues {
        display_name: "a".repeat(51),
        ..ProfileFormValues::default()
    };
    let errors = validate_profile_form(&values);

    assert!(errors.iter().any(|error| {
        error.field == "display_name" && error.message == "Display name must be 50 characters or less"
    }));
}

#[test]
fn profile_form_rejects_long_bio() {
    let values = ProfileFormValues {
        bio: "b".repeat(501),
        ..ProfileFormValues::default()
    };
    let errors = validate_profile_form(&values);

    assert!(errors
        .iter()
        .any(|error| error.field == "bio" && error.message == "Bio must be 500 characters or less"));
}

#[test]
fn profile_form_rejects_invalid_url() {
    let values = ProfileFormValues {
        website_url: "not-a-url".to_string(),
        ..ProfileFormValues::default()
    };
    let errors = validate_profile_form(&values);

    assert!(errors
        .iter()
        .any(|error| error.field == "website_url" && error.message == "Must be a valid URL"));
}

#[test]
fn profile_form_accepts_trimmed_limits_and_valid_links() {
    let values = ProfileFormValues {
        display_name: format!("  {}  ", "a".repeat(50)),
        github_url: " https://github.com/octo ".to_string(),
        ..ProfileFormValues::default()
    };
    assert!(validate_profile_form(&values).is_empty());
}

#[test]
fn update_profile_request_maps_empty_to_none() {
    let values = ProfileFormValues {
        display_name: "Octo".to_string(),
        github_url: "https://github.com/octo".to_string(),
        ..ProfileFormValues::default()
    };
    let payload = update_profile_request(&values);

    assert_eq!(payload.display_name.as_deref(), Some("Octo"));
    assert!(payload.bio.is_none());
    assert_eq!(payload.github_url.as_deref(), Some("https://github.com/octo"));
    assert!(payload.website_url.is_none());
    assert!(payload.twitter_url.is_none());
}

#[test]
fn profile_request_spec_matches_routes() {
    let spec = profile_request_spec();

    assert_eq!(spec.profile_endpoint, "/api/users/me");
    assert_eq!(spec.csrf_endpoint, "/api/csrf-token");
    assert_eq!(spec.csrf_header, "x-csrf-token");
}

#[test]
fn field_error_message_finds_first_error_for_field() {
    let errors = vec![
        FieldError { field: "name", message: "first" },
        FieldError { field: "name", message: "second" },
    ];
    assert_eq!(field_error_message(&errors, "name"), Some("first"));
    assert_eq!(field_error_message(&errors, "bio"), None);
}

#[test]
fn form_values_read_text_and_file_names() {
    let values = vec![
        ("name".to_string(), FormValue::Text("Clock".to_string())),
        ("package_file".to_string(), FormValue::File(Some("clock.tgz".to_string()))),
        ("license".to_string(), FormValue::File(None)),
        ("name".to_string(), FormValue::Text("ignored".to_string())),
    ];
    assert_eq!(form_value(&values, "name"), "Clock");
    assert_eq!(form_value(&values, "missing"), "");
    let upload = upload_form_values(&values);
    assert_eq!(upload.package_file, "clock.tgz");
    assert_eq!(upload.license, "");
    let profile = profile_form_values(&values);
    assert_eq!(profile.bio, "");
}

#[test]
fn new_collection_needs_a_name_and_trims_fields() {
    let err = create_collection_request("   ", "desc", "public").err().expect("blank name");
    assert_eq!(err.field, "collection_name");
    assert_eq!(err.message, "Collection name is required.");
    let req = create_collection_request("  Ops  ", "  ", " private ").ok().expect("request");
    assert_eq!(
        req,
        CollectionRequest {
            name: Some("Ops".to_string()),
            description: None,
            visibility: Some("private".to_string()),
        }
    );
}

#[test]
fn collection_edits_send_only_filled_fields() {
    let req = update_collection_request(" ", " Notes ", "");
    assert_eq!(
        req,
        CollectionRequest { name: None, description: Some("Notes".to_string()), visibility: None }
    );
}

#[test]
fn deleting_the_account_needs_the_login_typed_back() {
    let c = account_controls(true, Some("octo"), " octo ", false);
    assert!(c.confirm_matches);
    assert!(!c.delete_disabled);
    assert!(!c.export_disabled);
    assert_eq!(c.delete_label, "Delete Account");
    assert_eq!(c.delete_placeholder, "octo");
    let c = account_controls(true, Some("octo"), "octa", false);
    assert!(!c.confirm_matches);
    assert!(c.delete_disabled);
    let c = account_controls(true, Some("octo"), "octo", true);
    assert!(c.delete_disabled);
    assert_eq!(c.delete_label, "Deleting...");
    let c = account_controls(false, None, "", false);
    assert!(c.export_disabled);
    assert!(c.delete_disabled);
    assert_eq!(c.delete_placeholder, "username");
}
