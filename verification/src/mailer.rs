//! The notification hook: which message goes to whom.
//!
//! Nothing is sent from here. The functions of this module say what is to be
//! sent; the caller hands the message to a transport and reports back how
//! that went.

use vstd::prelude::*;
use crate::database::models::Booking;
use crate::mailer_errors::MailerError;

verus! {

/// The settings of the mailer, each as the environment holds it or not.
#[derive(Debug, Clone, PartialEq, Eq)]
pub struct MailSettings {
    pub smtp_user: Option<String>,
    pub smtp_password: Option<String>,
    pub smtp_server: Option<String>,
    pub email_from: Option<String>,
    pub email_to: Option<String>,
    pub email_subject_prefix: Option<String>,
}

/// A message for the transport. The first recipient is addressed openly,
/// the others receive blind copies.
#[derive(Debug, Clone, PartialEq, Eq)]
pub struct Mail {
    pub from: String,
    pub reply_to: String,
    pub to: String,
    pub bcc: Vec<String>,
    pub subject: String,
    pub body: String,
}

/// Name of the setting that holds the sender.
pub const EMAIL_FROM: &'static str = "EMAIL_FROM";

/// Name of the setting that holds the operators' addresses, separated by
/// commas.
pub const EMAIL_TO: &'static str = "EMAIL_TO";

/// Name of the setting that holds what every subject starts with.
pub const EMAIL_SUBJECT_PREFIX: &'static str = "EMAIL_SUBJECT_PREFIX";

/// Subject of the message that announces the launch.
pub const LAUNCH_SUBJECT: &'static str = "Launch";

/// Body of the message that announces the launch.
pub const LAUNCH_BODY: &'static str = "Cargobike share backend is about to launch!";

/// The pattern under which a rent's days are written.
pub const DATE_PATTERN: &'static str = "%Y-%m-%d";

/// The texts of a sequence of strings.
pub open spec fn texts(strings: Seq<String>) -> Seq<Seq<char>> {
    Seq::new(strings.len(), |i: int| strings[i]@)
}

/// The pieces of a text between its commas, empty pieces included: a text
/// with n commas has n + 1 pieces.
pub open spec fn split_at_commas(text: Seq<char>) -> Seq<Seq<char>>
    decreases text.len(),
{
    if text.len() == 0 {
        seq![Seq::empty()]
    } else {
        let pieces = split_at_commas(text.drop_last());
        if text.last() == ',' {
            pieces.push(Seq::empty())
        } else {
            pieces.drop_last().push(pieces.last().push(text.last()))
        }
    }
}

/// A text has at least one piece.
pub proof fn lemma_split_is_not_empty(text: Seq<char>)
    ensures
        split_at_commas(text).len() >= 1,
    decreases text.len(),
{
    if text.len() > 0 {
        lemma_split_is_not_empty(text.drop_last());
    }
}

/// The subject under the prefix: the prefix in square brackets, a space,
/// and the subject.
pub open spec fn prefixed_subject(prefix: Seq<char>, subject: Seq<char>) -> Seq<char> {
    "["@ + prefix + "] "@ + subject
}

/// The subject that announces a rent from one day to another.
pub open spec fn rent_subject(start_date: Seq<char>, end_date: Seq<char>) -> Seq<char> {
    "New rent from "@ + start_date + " to "@ + end_date
}

/// The mailer has what it needs to reach its transport and to address the
/// operators: user, password, server, sender and recipients.
pub fn is_mail_config_available(settings: &MailSettings) -> (available: bool)
    ensures
        available == (settings.smtp_user is Some && settings.smtp_password is Some
            && settings.smtp_server is Some && settings.email_from is Some && settings.email_to
            is Some),
{
    settings.smtp_user.is_some() && settings.smtp_password.is_some()
        && settings.smtp_server.is_some() && settings.email_from.is_some()
        && settings.email_to.is_some()
}

/// Splits a list of addresses at its commas.
pub fn split_recipients(email_to: &str) -> (recipients: Vec<String>)
    ensures
        texts(recipients@) == split_at_commas(email_to@),
        recipients@.len() >= 1,
{
    let length = email_to.unicode_len();
    let mut recipients: Vec<String> = Vec::new();
    let mut start: usize = 0;
    let mut k: usize = 0;
    proof {
        assert(email_to@.take(0) =~= Seq::<char>::empty());
        assert(texts(recipients@).push(email_to@.subrange(0, 0)) =~= seq![Seq::<char>::empty()]);
    }
    while k < length
        invariant
            length == email_to@.len(),
            start <= k <= length,
            texts(recipients@).push(email_to@.subrange(start as int, k as int))
                == split_at_commas(email_to@.take(k as int)),
        decreases length - k,
    {
        let ghost before = email_to@.take(k as int);
        let ghost pieces = split_at_commas(before);
        assert(email_to@.take(k + 1).drop_last() =~= before);
        assert(email_to@.take(k + 1).last() == email_to@[k as int]);
        if email_to.get_char(k) == ',' {
            let piece = email_to.substring_char(start, k).to_owned();
            recipients.push(piece);
            assert(texts(recipients@) =~= pieces);
            start = k + 1;
            assert(email_to@.subrange(start as int, k + 1) =~= Seq::<char>::empty());
        } else {
            assert(pieces.last() == email_to@.subrange(start as int, k as int));
            assert(pieces.drop_last() =~= texts(recipients@));
            assert(email_to@.subrange(start as int, k + 1) =~= email_to@.subrange(
                start as int,
                k as int,
            ).push(email_to@[k as int]));
        }
        k += 1;
    }
    let piece = email_to.substring_char(start, length).to_owned();
    proof {
        assert(email_to@.take(k as int) =~= email_to@);
        assert(texts(recipients@.push(piece)) =~= texts(recipients@).push(piece@));
    }
    recipients.push(piece);
    recipients
}

/// Puts the subject under the prefix.
pub fn prefix_subject(prefix: &String, subject: &String) -> (prefixed: String)
    ensures
        prefixed@ == prefixed_subject(prefix@, subject@),
{
    let mut prefixed = String::new();
    prefixed.append("[");
    prefixed.append(prefix.as_str());
    prefixed.append("] ");
    prefixed.append(subject.as_str());
    assert(prefixed@ =~= prefixed_subject(prefix@, subject@));
    prefixed
}

/// The subject that announces a rent from one day to another.
pub fn rent_mail_subject(start_date: &String, end_date: &String) -> (subject: String)
    ensures
        subject@ == rent_subject(start_date@, end_date@),
{
    let mut subject = String::new();
    subject.append("New rent from ");
    subject.append(start_date.as_str());
    subject.append(" to ");
    subject.append(end_date.as_str());
    assert(subject@ =~= rent_subject(start_date@, end_date@));
    subject
}

/// The setting that a message cannot be made without, if there is one: the
/// sender first, then the prefix.
pub open spec fn missing_for_mail(settings: MailSettings) -> Option<Seq<char>> {
    if settings.email_from is None {
        Some(EMAIL_FROM@)
    } else if settings.email_subject_prefix is None {
        Some(EMAIL_SUBJECT_PREFIX@)
    } else {
        None
    }
}

/// The setting that the operators cannot be addressed without, if there is
/// one: the list of recipients first, then what a message needs.
pub open spec fn missing_for_operators(settings: MailSettings) -> Option<Seq<char>> {
    if settings.email_to is None {
        Some(EMAIL_TO@)
    } else {
        missing_for_mail(settings)
    }
}

/// The message is the one that the settings make of recipients, subject and
/// body: it comes from the sender, replies go to the sender, the first
/// recipient is addressed openly and the others blindly, and the subject
/// stands under the prefix.
pub open spec fn is_mail_from_backend(
    mail: Mail,
    settings: MailSettings,
    to: Seq<Seq<char>>,
    subject: Seq<char>,
    body: Seq<char>,
) -> bool {
    &&& to.len() >= 1
    &&& settings.email_from is Some
    &&& settings.email_subject_prefix is Some
    &&& mail.from@ == settings.email_from.unwrap()@
    &&& mail.reply_to@ == settings.email_from.unwrap()@
    &&& mail.to@ == to[0]
    &&& texts(mail.bcc@) == to.subrange(1, to.len() as int)
    &&& mail.subject@ == prefixed_subject(settings.email_subject_prefix.unwrap()@, subject)
    &&& mail.body@ == body
}

/// Makes the message that goes from the backend to the recipients. It
/// cannot be made without a sender and a subject prefix, nor for nobody.
pub fn mail_from_backend(
    settings: &MailSettings,
    to: Vec<String>,
    subject: String,
    body: String,
) -> (outcome: Result<Mail, MailerError>)
    requires
        to@.len() >= 1,
    ensures
        outcome is Ok <==> missing_for_mail(*settings) is None,
        outcome matches Ok(mail) ==> is_mail_from_backend(
            mail,
            *settings,
            texts(to@),
            subject@,
            body@,
        ),
        outcome matches Err(error) ==> error matches MailerError::MissingConfig(name) && Some(name@)
            == missing_for_mail(*settings),
{
    let from = match &settings.email_from {
        Some(from) => from,
        None => {
            return Err(MailerError::MissingConfig(EMAIL_FROM.to_owned()));
        },
    };
    let prefix = match &settings.email_subject_prefix {
        Some(prefix) => prefix,
        None => {
            return Err(MailerError::MissingConfig(EMAIL_SUBJECT_PREFIX.to_owned()));
        },
    };
    let mut bcc: Vec<String> = Vec::new();
    let mut k: usize = 1;
    while k < to.len()
        invariant
            1 <= k <= to.len(),
            texts(bcc@) == texts(to@).subrange(1, k as int),
        decreases to.len() - k,
    {
        let copy = to[k].clone();
        let ghost before = bcc@;
        bcc.push(copy);
        proof {
            assert(texts(bcc@) =~= texts(before).push(copy@));
            assert(texts(to@).subrange(1, k + 1) =~= texts(to@).subrange(1, k as int).push(
                to@[k as int]@,
            ));
        }
        k += 1;
    }
    Ok(
        Mail {
            from: from.clone(),
            reply_to: from.clone(),
            to: to[0].clone(),
            bcc,
            subject: prefix_subject(prefix, &subject),
            body,
        },
    )
}

/// The message that tells the operators of the launch.
pub fn startup_mail(settings: &MailSettings) -> (outcome: Result<Mail, MailerError>)
    ensures
        outcome is Ok <==> missing_for_operators(*settings) is None,
        outcome matches Ok(mail) ==> is_mail_from_backend(
            mail,
            *settings,
            split_at_commas(settings.email_to.unwrap()@),
            LAUNCH_SUBJECT@,
            LAUNCH_BODY@,
        ),
        outcome matches Err(error) ==> error matches MailerError::MissingConfig(name) && Some(name@)
            == missing_for_operators(*settings),
{
    let email_to = match &settings.email_to {
        Some(email_to) => email_to,
        None => {
            return Err(MailerError::MissingConfig(EMAIL_TO.to_owned()));
        },
    };
    let to = split_recipients(email_to.as_str());
    mail_from_backend(settings, to, LAUNCH_SUBJECT.to_owned(), LAUNCH_BODY.to_owned())
}

/// Those who hear of a booking: the operators, and after them the renter
/// where the booking names one.
pub open spec fn rent_recipients(email_to: Seq<char>, booking: Booking) -> Seq<Seq<char>> {
    match booking.email {
        Some(email) => split_at_commas(email_to).push(email@),
        None => split_at_commas(email_to),
    }
}

/// The message that tells the operators, and the renter where the booking
/// names one, of a rent from `start_date` to `end_date`, the days of the
/// booking's period as they are to be written. Its body is the booking's
/// short token.
pub fn rent_mail(
    booking: &Booking,
    settings: &MailSettings,
    start_date: &String,
    end_date: &String,
) -> (outcome: Result<Mail, MailerError>)
    ensures
        outcome is Ok <==> missing_for_operators(*settings) is None,
        outcome matches Ok(mail) ==> is_mail_from_backend(
            mail,
            *settings,
            rent_recipients(settings.email_to.unwrap()@, *booking),
            rent_subject(start_date@, end_date@),
            booking.short_token@,
        ),
        outcome matches Err(error) ==> error matches MailerError::MissingConfig(name) && Some(name@)
            == missing_for_operators(*settings),
{
    let subject = rent_mail_subject(start_date, end_date);
    let email_to = match &settings.email_to {
        Some(email_to) => email_to,
        None => {
            return Err(MailerError::MissingConfig(EMAIL_TO.to_owned()));
        },
    };
    let mut to = split_recipients(email_to.as_str());
    match &booking.email {
        Some(email) => {
            let ghost operators = to@;
            to.push(email.clone());
            assert(texts(to@) =~= texts(operators).push(email@));
        },
        None => {},
    }
    let body = booking.short_token.clone();
    mail_from_backend(settings, to, subject, body)
}

} // verus!
