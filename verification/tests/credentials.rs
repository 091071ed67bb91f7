use image_uploader::credentials::Credentials;

fn sample() -> Credentials {
    Credentials::new("acme".to_string(), "ada".to_string(), "survey".to_string())
}

#[test]
fn new_credentials_carry_the_identity_alone() {
    let creds = sample();
    assert_eq!(creds.organization, "acme");
    assert_eq!(creds.username, "ada");
    assert_eq!(creds.mission, "survey");
    assert_eq!(creds.id, None);
    assert_eq!(creds.filepath, None);
}

#[test]
fn for_image_adds_id_and_path_and_keeps_the_identity() {
    let creds = sample().for_image("42".to_string(), "images/acme/ada/survey/42.webp".to_string());
    assert_eq!(creds.organization, "acme");
    assert_eq!(creds.username, "ada");
    assert_eq!(creds.mission, "survey");
    assert_eq!(creds.id.as_deref(), Some("42"));
    assert_eq!(creds.filepath.as_deref(), Some("images/acme/ada/survey/42.webp"));
}

#[test]
fn clone_copies_every_field() {
    let creds = sample().for_image("42".to_string(), "p".to_string());
    let copy = creds.clone();
    assert_eq!(copy.organization, creds.organization);
    assert_eq!(copy.username, creds.username);
    assert_eq!(copy.mission, creds.mission);
    assert_eq!(copy.id, creds.id);
    assert_eq!(copy.filepath, creds.filepath);
    let bare = sample().clone();
    assert_eq!(bare.id, None);
    assert_eq!(bare.filepath, None);
}

#[test]
fn same_tuple_compares_the_three_identity_fields_only() {
    let creds = sample();
    assert!(creds.same_tuple(&sample().for_image("1".to_string(), "p".to_string())));
    assert!(!creds.same_tuple(&Credentials::new("acme".to_string(), "ada".to_string(), "other".to_string())));
    assert!(!creds.same_tuple(&Credentials::new("acme".to_string(), "bob".to_string(), "survey".to_string())));
    assert!(!creds.same_tuple(&Credentials::new("beta".to_string(), "ada".to_string(), "survey".to_string())));
}
