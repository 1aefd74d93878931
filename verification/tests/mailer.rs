use cargobike_share_backend::database::models::Booking;
use cargobike_share_backend::mailer::{
    is_mail_config_available, mail_from_backend, prefix_subject, rent_mail, rent_mail_subject,
    split_recipients, startup_mail, Mail, MailSettings,
};
use cargobike_share_backend::mailer_errors::MailerError;

fn full_settings() -> MailSettings {
    MailSettings {
        smtp_user: Some("user".to_string()),
        smtp_password: Some("SECRET-REDACTED".to_string()),
        smtp_server: Some("smtp.test.rs".to_string()),
        email_from: Some("backend@test.rs".to_string()),
        email_to: Some("office@test.rs".to_string()),
        email_subject_prefix: Some("Cargobike".to_string()),
    }
}

fn booking(email: Option<&str>) -> Booking {
    Booking {
        token: 1,
        bike_id: 1,
        start_timestamp: 0,
        end_timestamp: 86_400_000_000,
        encrypted_details: "payload".to_string(),
        short_token: "ab12".to_string(),
        email: email.map(|email| email.to_string()),
    }
}

#[test]
fn is_mail_config_available_needs_five_settings() {
    let full = full_settings();
    assert!(is_mail_config_available(&full));

    let without_prefix = MailSettings { email_subject_prefix: None, ..full.clone() };
    assert!(is_mail_config_available(&without_prefix));

    assert!(!is_mail_config_available(&MailSettings { smtp_user: None, ..full.clone() }));
    assert!(!is_mail_config_available(&MailSettings { smtp_password: None, ..full.clone() }));
    assert!(!is_mail_config_available(&MailSettings { smtp_server: None, ..full.clone() }));
    assert!(!is_mail_config_available(&MailSettings { email_from: None, ..full.clone() }));
    assert!(!is_mail_config_available(&MailSettings { email_to: None, ..full.clone() }));
}

#[test]
fn split_recipients_keeps_empty_pieces() {
    assert_eq!(split_recipients("a@test.rs"), vec!["a@test.rs".to_string()]);
    assert_eq!(
        split_recipients("a@test.rs,b@test.rs,c@test.rs"),
        vec!["a@test.rs".to_string(), "b@test.rs".to_string(), "c@test.rs".to_string()]
    );
    assert_eq!(split_recipients(""), vec!["".to_string()]);
    assert_eq!(split_recipients(","), vec!["".to_string(), "".to_string()]);
    assert_eq!(split_recipients("a,,b,"), vec!["a", "", "b", ""]);
    assert_eq!(split_recipients("bäcker@test.rs, z"), vec!["bäcker@test.rs", " z"]);
    for text in ["", ",", "a,,b,", "x,y", "käse,brot"] {
        let expected: Vec<String> = text.split(",").map(|piece| piece.to_string()).collect();
        assert_eq!(split_recipients(text), expected);
    }
}

#[test]
fn prefix_subject_puts_the_prefix_in_brackets() {
    assert_eq!(prefix_subject(&"CBS".to_string(), &"Launch".to_string()), "[CBS] Launch");
    assert_eq!(prefix_subject(&"".to_string(), &"".to_string()), "[] ");
}

#[test]
fn rent_mail_subject_names_both_days() {
    assert_eq!(
        rent_mail_subject(&"2021-04-19".to_string(), &"2021-04-21".to_string()),
        "New rent from 2021-04-19 to 2021-04-21"
    );
}

#[test]
fn startup_mail_goes_to_the_operators() {
    let settings =
        MailSettings { email_to: Some("a@test.rs,b@test.rs,c@test.rs".to_string()), ..full_settings() };

    let mail = startup_mail(&settings).unwrap();

    assert_eq!(
        mail,
        Mail {
            from: "backend@test.rs".to_string(),
            reply_to: "backend@test.rs".to_string(),
            to: "a@test.rs".to_string(),
            bcc: vec!["b@test.rs".to_string(), "c@test.rs".to_string()],
            subject: "[Cargobike] Launch".to_string(),
            body: "Cargobike share backend is about to launch!".to_string(),
        }
    );
}

#[test]
fn startup_mail_names_the_setting_that_is_missing() {
    let full = full_settings();

    assert_eq!(
        startup_mail(&MailSettings { email_to: None, email_from: None, ..full.clone() }),
        Err(MailerError::MissingConfig("EMAIL_TO".to_string()))
    );
    assert_eq!(
        startup_mail(&MailSettings { email_from: None, email_subject_prefix: None, ..full.clone() }),
        Err(MailerError::MissingConfig("EMAIL_FROM".to_string()))
    );
    assert_eq!(
        startup_mail(&MailSettings { email_subject_prefix: None, ..full.clone() }),
        Err(MailerError::MissingConfig("EMAIL_SUBJECT_PREFIX".to_string()))
    );
    assert_eq!(
        MailerError::MissingConfig("EMAIL_TO".to_string()).message(),
        "EMAIL_TO".to_string()
    );
    assert_eq!(MailerError::TransportError("refused".to_string()).message(), "refused".to_string());
}

#[test]
fn rent_mail_adds_the_renter_after_the_operators() {
    let settings = full_settings();

    let with_renter = rent_mail(
        &booking(Some("renter@test.rs")),
        &settings,
        &"1970-01-01".to_string(),
        &"1970-01-02".to_string(),
    )
    .unwrap();
    let without_renter = rent_mail(
        &booking(None),
        &settings,
        &"1970-01-01".to_string(),
        &"1970-01-02".to_string(),
    )
    .unwrap();

    assert_eq!(with_renter.to, "office@test.rs");
    assert_eq!(with_renter.bcc, vec!["renter@test.rs".to_string()]);
    assert_eq!(with_renter.subject, "[Cargobike] New rent from 1970-01-01 to 1970-01-02");
    assert_eq!(with_renter.body, "ab12");
    assert_eq!(without_renter.to, "office@test.rs");
    assert!(without_renter.bcc.is_empty());
}

#[test]
fn mail_from_backend_needs_sender_and_prefix() {
    let full = full_settings();
    let to = vec!["a@test.rs".to_string()];

    assert_eq!(
        mail_from_backend(
            &MailSettings { email_from: None, ..full.clone() },
            to.clone(),
            "s".to_string(),
            "b".to_string()
        ),
        Err(MailerError::MissingConfig("EMAIL_FROM".to_string()))
    );
    assert_eq!(
        mail_from_backend(
            &MailSettings { email_to: None, ..full.clone() },
            to.clone(),
            "s".to_string(),
            "b".to_string()
        )
        .map(|mail| mail.subject),
        Ok("[Cargobike] s".to_string())
    );
}
