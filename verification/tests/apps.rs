use breeze::apps::{
    installed_app_dto, parse_status, permission_label, spared_updates, status_label, to_data_url,
};
use breeze::domain::AppStatus;
use breeze::ports::PermissionStatus;

#[test]
fn only_the_apps_sent_change_status() {
    let choices = vec![("com.apple.Music".to_owned(), false)];
    let updates = spared_updates(&choices, &vec![true]);
    assert!(updates
        .iter()
        .all(|(id, _)| id != "com.tinyspeck.slackmacgap"));
    assert_eq!(
        updates,
        vec![("com.apple.Music".to_owned(), AppStatus::Blocked)]
    );
}

#[test]
fn an_invalid_id_is_skipped_without_failing() {
    let choices = vec![
        ("not a bundle id".to_owned(), true),
        ("com.apple.Notes".to_owned(), true),
    ];
    let updates = spared_updates(&choices, &vec![false, true]);
    assert_eq!(
        updates,
        vec![("com.apple.Notes".to_owned(), AppStatus::Spared)]
    );
}

#[test]
fn statuses_round_trip_through_their_names() {
    for status in [AppStatus::Blocked, AppStatus::Spared, AppStatus::Ignored] {
        assert_eq!(parse_status(status_label(status)), Some(status));
    }
    assert_eq!(parse_status("blocked"), None);
    assert_eq!(parse_status(""), None);
}

#[test]
fn the_permission_has_a_name_per_state() {
    assert_eq!(permission_label(PermissionStatus::Granted), "Granted");
    assert_eq!(permission_label(PermissionStatus::Denied), "Denied");
    assert_eq!(permission_label(PermissionStatus::Unknown), "Unknown");
}

#[test]
fn an_icon_becomes_a_png_data_url() {
    assert_eq!(to_data_url(b"Man"), "data:image/png;base64,TWFu");
    assert_eq!(to_data_url(b"Ma"), "data:image/png;base64,TWE=");
    assert_eq!(to_data_url(b""), "data:image/png;base64,");
}

#[test]
fn an_installed_app_is_listed_with_its_status_and_icon() {
    let dto = installed_app_dto(
        "com.apple.Notes".to_owned(),
        "Notes".to_owned(),
        Some(vec![0xff]),
        AppStatus::Spared,
    );
    assert_eq!(dto.bundle_id, "com.apple.Notes");
    assert_eq!(dto.name, "Notes");
    assert_eq!(dto.status, "Spared");
    assert_eq!(dto.icon_data_url.as_deref(), Some("data:image/png;base64,/w=="));
    let plain = installed_app_dto("a.b".to_owned(), "B".to_owned(), None, AppStatus::Blocked);
    assert_eq!(plain.icon_data_url, None);
    assert_eq!(plain.status, "Blocked");
}
