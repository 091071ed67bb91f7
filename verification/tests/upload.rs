use image::{DynamicImage, ImageOutputFormat, Rgb, RgbImage};
use image_uploader::credentials::Credentials;
use image_uploader::db::{dispatch, DbMessage, QueryType, StoreAction, INSERT_SQL};
use image_uploader::paths::{destination_dir, image_path};
use image_uploader::upload_server::{
    Outcome, UploadAction, UploadError, UploadEvent, UploadSession,
};
use std::io::Cursor;

fn who() -> Credentials {
    Credentials::new("A".to_string(), "u1".to_string(), "m1".to_string())
}

fn red_png() -> Vec<u8> {
    let image = DynamicImage::ImageRgb8(RgbImage::from_pixel(10, 10, Rgb([255, 0, 0])));
    let mut bytes = Vec::new();
    image.write_to(&mut Cursor::new(&mut bytes), ImageOutputFormat::Png).unwrap();
    bytes
}

fn streaming() -> UploadSession {
    let (session, _) = UploadSession::new().step(UploadEvent::Identity(Some(who())));
    let (session, action) = session.step(UploadEvent::DirectoryReady(true));
    assert!(matches!(action, UploadAction::AwaitFrame));
    session
}

fn is_closed_with(session: &UploadSession, action: &UploadAction, outcome: Outcome) -> bool {
    matches!(session, UploadSession::Closed(found) if *found == outcome)
        && matches!(action, UploadAction::Close(found) if *found == outcome)
}

fn written(action: UploadAction) -> (String, Vec<u8>) {
    match action {
        UploadAction::WriteFile { path, data } => (path, data),
        _ => panic!("a file write was expected"),
    }
}

fn submitted(action: UploadAction) -> DbMessage {
    match action {
        UploadAction::Submit(msg) => msg,
        _ => panic!("a submission was expected"),
    }
}

fn is_uuid_text(id: &str) -> bool {
    let bytes = id.as_bytes();
    bytes.len() == 36
        && bytes.iter().enumerate().all(|(i, b)| match i {
            8 | 13 | 18 | 23 => *b == b'-',
            _ => b.is_ascii_digit() || (b'a'..=b'f').contains(b),
        })
        && bytes[14] == b'4'
        && b"89ab".contains(&bytes[19])
}

#[test]
fn directory_is_images_organization_username_mission() {
    assert_eq!(destination_dir(&who()), "images/A/u1/m1/");
    let other = Credentials::new("acme".to_string(), "".to_string(), "x y".to_string());
    assert_eq!(destination_dir(&other), "images/acme//x y/");
}

#[test]
fn image_path_is_directory_id_extension() {
    assert_eq!(image_path("images/A/u1/m1/", "abc"), "images/A/u1/m1/abc.webp");
    assert_eq!(image_path("", ""), ".webp");
    assert_eq!(image_path("d/", "x"), image_path("d/", "x"));
}

#[test]
fn identity_leads_to_the_directory_being_made() {
    let (session, action) = UploadSession::new().step(UploadEvent::Identity(Some(who())));
    assert!(matches!(&action, UploadAction::CreateDirectory(dir) if dir == "images/A/u1/m1/"));
    match session {
        UploadSession::Preparing { identity, directory } => {
            assert!(identity.same_tuple(&who()));
            assert_eq!(directory, "images/A/u1/m1/");
        }
        _ => panic!("the session should prepare its directory"),
    }
}

#[test]
fn missing_identity_is_a_credential_error() {
    let (session, action) = UploadSession::new().step(UploadEvent::Identity(None));
    assert!(is_closed_with(&session, &action, Outcome::Error(UploadError::Credential)));
}

#[test]
fn failed_directory_is_an_io_error() {
    let (session, _) = UploadSession::new().step(UploadEvent::Identity(Some(who())));
    let (session, action) = session.step(UploadEvent::DirectoryReady(false));
    assert!(is_closed_with(&session, &action, Outcome::Error(UploadError::Io)));
}

#[test]
fn upload_of_red_square_writes_one_file_and_submits_one_insert() {
    let (session, action) = streaming().step(UploadEvent::Frame(red_png()));
    let (path, data) = written(action);
    let id = match &session {
        UploadSession::Persisting { id, path: pending, directory, .. } => {
            assert_eq!(directory, "images/A/u1/m1/");
            assert_eq!(pending, &path);
            id.clone()
        }
        _ => panic!("the session should persist the frame"),
    };
    assert!(is_uuid_text(&id));
    assert_eq!(path, format!("images/A/u1/m1/{}.webp", id));
    let red = RgbImage::from_pixel(10, 10, Rgb([255, 0, 0]));
    assert_eq!(image::load_from_memory(&data).unwrap().to_rgb8(), red);

    let (session, action) = session.step(UploadEvent::Written(true));
    assert!(matches!(session, UploadSession::Streaming { .. }));
    let msg = submitted(action);
    assert_eq!(msg.query_type, QueryType::Insert);
    assert!(msg.return_tx.is_none());
    assert_eq!(msg.check(), None);
    assert_eq!(msg.credentials.organization, "A");
    assert_eq!(msg.credentials.username, "u1");
    assert_eq!(msg.credentials.mission, "m1");
    assert_eq!(msg.credentials.id.as_deref(), Some(id.as_str()));
    assert_eq!(msg.credentials.filepath.as_deref(), Some(path.as_str()));
    match dispatch(msg) {
        StoreAction::Execute(statement) => {
            assert_eq!(statement.sql, INSERT_SQL);
            assert_eq!(statement.params, vec!["A", "u1", "m1", id.as_str(), path.as_str()]);
        }
        _ => panic!("the insert should be executed"),
    }
}

#[test]
fn each_frame_gets_its_own_id() {
    let (session, first) = streaming().step(UploadEvent::Frame(red_png()));
    let (first_path, _) = written(first);
    let (session, _) = session.step(UploadEvent::Written(true));
    let (_, second) = session.step(UploadEvent::Frame(red_png()));
    let (second_path, _) = written(second);
    assert_ne!(first_path, second_path);
}

#[test]
fn non_image_frame_ends_the_session_with_a_decode_error() {
    let (session, action) = streaming().step(UploadEvent::Frame(b"not an image".to_vec()));
    assert!(is_closed_with(&session, &action, Outcome::Error(UploadError::Decode)));
    let (session, action) = session.step(UploadEvent::Frame(red_png()));
    assert!(is_closed_with(&session, &action, Outcome::Error(UploadError::Decode)));
    let (session, action) = session.step(UploadEvent::Written(true));
    assert!(is_closed_with(&session, &action, Outcome::Error(UploadError::Decode)));
}

#[test]
fn unsupported_layout_ends_the_session_with_an_encode_error() {
    let grey = DynamicImage::ImageLuma8(image::GrayImage::new(3, 3));
    let mut bytes = Vec::new();
    grey.write_to(&mut Cursor::new(&mut bytes), ImageOutputFormat::Png).unwrap();
    let (session, action) = streaming().step(UploadEvent::Frame(bytes));
    assert!(is_closed_with(&session, &action, Outcome::Error(UploadError::Encode)));
}

#[test]
fn close_frame_ends_the_session_in_success() {
    let (session, action) = streaming().step(UploadEvent::CloseFrame);
    assert!(is_closed_with(&session, &action, Outcome::Success));
    let (session, action) = session.step(UploadEvent::Frame(red_png()));
    assert!(is_closed_with(&session, &action, Outcome::Success));
}

#[test]
fn transport_error_ends_the_session() {
    let (session, action) = streaming().step(UploadEvent::TransportError);
    assert!(is_closed_with(&session, &action, Outcome::Error(UploadError::Transport)));
}

#[test]
fn failed_write_ends_the_session_without_an_insert() {
    let (session, _) = streaming().step(UploadEvent::Frame(red_png()));
    let (session, action) = session.step(UploadEvent::Written(false));
    assert!(is_closed_with(&session, &action, Outcome::Error(UploadError::Io)));
}

#[test]
fn unexpected_events_are_protocol_errors() {
    let (session, action) = UploadSession::new().step(UploadEvent::Frame(red_png()));
    assert!(is_closed_with(&session, &action, Outcome::Error(UploadError::Protocol)));
    let (session, action) = streaming().step(UploadEvent::Written(true));
    assert!(is_closed_with(&session, &action, Outcome::Error(UploadError::Protocol)));
    let (session, action) = streaming().step(UploadEvent::Identity(Some(who())));
    assert!(is_closed_with(&session, &action, Outcome::Error(UploadError::Protocol)));
    let (session, _) = streaming().step(UploadEvent::Frame(red_png()));
    let (session, action) = session.step(UploadEvent::CloseFrame);
    assert!(is_closed_with(&session, &action, Outcome::Error(UploadError::Protocol)));
}

#[test]
fn persist_derives_the_path_from_directory_and_id() {
    let (session, action) = UploadSession::persist(
        who(),
        "images/A/u1/m1/".to_string(),
        vec![1, 2, 3],
        "0123".to_string(),
    );
    let (path, data) = written(action);
    assert_eq!(path, "images/A/u1/m1/0123.webp");
    assert_eq!(data, vec![1, 2, 3]);
    match session {
        UploadSession::Persisting { id, path, directory, identity } => {
            assert_eq!(id, "0123");
            assert_eq!(path, "images/A/u1/m1/0123.webp");
            assert_eq!(directory, "images/A/u1/m1/");
            assert!(identity.same_tuple(&who()));
        }
        _ => panic!("the session should persist the image"),
    }
}
