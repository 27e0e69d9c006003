use rmap::browser::{delete_question, star_toggle_label, BrowserNotice, SaveDialog};

#[test]
fn save_dialog_focus_is_requested_once() {
    let mut d = SaveDialog::default();
    d.open_for_layer(3);
    assert!(d.take_focus_request());
    assert!(!d.take_focus_request());
    assert!(d.open);
    assert_eq!(d.layer_idx, 3);
}

#[test]
fn save_dialog_needs_a_non_blank_name() {
    let mut d = SaveDialog::default();
    d.open_for_layer(0);
    assert!(!d.can_save());
    d.name_buf = "   \t".into();
    assert!(!d.can_save());
    d.name_buf = "  Warm wash ".into();
    assert!(d.can_save());
    assert_eq!(d.preset_name(), "Warm wash");
    d.close();
    assert!(!d.open);
    assert!(d.name_buf.is_empty());
}

#[test]
fn star_toggle_labels() {
    assert_eq!(star_toggle_label(true), ("★", "Unstar"));
    assert_eq!(star_toggle_label(false), ("☆", "Star"));
}

#[test]
fn browser_notices() {
    let saved = BrowserNotice::Saved { name: "Warm wash".into() };
    assert_eq!(saved.text(), "Preset 'Warm wash' saved.");
    assert!(!saved.is_warning());
    let failed = BrowserNotice::SaveFailed { error: "disk full".into() };
    assert_eq!(failed.text(), "Could not save preset: disk full");
    assert!(failed.is_warning());
    assert_eq!(
        BrowserNotice::ImportUnsupported { preset_id: "warp_drive".into() }.text(),
        "This preset requires a version of rmap that supports 'warp_drive'. It was not imported."
    );
    assert_eq!(BrowserNotice::Imported { name: "Neon".into() }.text(), "Imported preset 'Neon'.");
    assert!(!BrowserNotice::Imported { name: "Neon".into() }.is_warning());
    assert_eq!(
        BrowserNotice::ImportUnreadable { error: "bad json".into() }.text(),
        "Could not read preset file: bad json"
    );
    assert_eq!(
        BrowserNotice::ImportFailed { error: "denied".into() }.text(),
        "Could not import preset: denied"
    );
    assert_eq!(BrowserNotice::Deleted { name: "Old".into() }.text(), "Preset 'Old' deleted.");
    assert_eq!(
        BrowserNotice::DeleteFailed { error: "gone".into() }.text(),
        "Could not delete preset: gone"
    );
    assert_eq!(delete_question("Old"), "Delete 'Old'? This cannot be undone.");
}
