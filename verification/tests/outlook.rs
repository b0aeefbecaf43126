use check_if_email_exists::microsoft365::{get_onedrive_url, microsoft365_outcome};

#[test]
fn test_onedrive_url() {
    let email_address = "lightmand@acmecomputercompany.com";
    let expected = "https://acmecomputercompany-my.sharepoint.com/personal/lightmand_acmecomputercompany_com/_layouts/15/onedrive.aspx";

    assert_eq!(expected, get_onedrive_url(email_address));
}

#[test]
fn onedrive_url_replaces_dots_and_uses_the_first_label() {
    assert_eq!(
        get_onedrive_url("first.last@mail.example.co.uk"),
        "https://mail-my.sharepoint.com/personal/first_last_mail_example_co_uk/_layouts/15/onedrive.aspx"
    );
}

#[test]
fn forbidden_onedrive_site_means_deliverable() {
    let d = microsoft365_outcome(403).unwrap();
    assert!(d.can_connect_smtp && d.is_deliverable);
    assert!(!d.is_catch_all && !d.has_full_inbox && !d.is_disabled);
    assert!(microsoft365_outcome(404).is_none());
    assert!(microsoft365_outcome(200).is_none());
}
