//! Turning claimed outages into notifications for their owners.
use humanize_duration::prelude::DurationExt;
use vstd::prelude::*;

use crate::incident::EmailData;

verus! {

/// The text that names a duration of `micros` microseconds in whole minutes
/// and larger units.
pub uninterp spec fn humanized_minutes(micros: int) -> Seq<char>;

/// Relies on humanize_duration's `human(Truncate::Minute)` on a std
/// `Duration`: the text depends on the duration alone.
#[verifier::external_body]
fn humanize_minutes(micros: u64) -> (r: String)
    ensures
        r@ == humanized_minutes(micros as int),
{
    std::time::Duration::from_micros(micros).human(humanize_duration::Truncate::Minute).to_string()
}

/// What a notification of one outage says; the transport renders it in the
/// owner's language.
#[derive(Debug, Clone)]
pub struct Notification {
    pub system_id: u128,
    pub recipient: String,
    pub system_name: String,
    /// The first instant at which the outage was detectable, in microseconds.
    pub down_since: i64,
    /// The grace window, in words.
    pub down_after: String,
    pub timezone: String,
    pub language: String,
}

/// `n` is the notification of the outage `e`.
pub open spec fn notifies(n: Notification, e: EmailData) -> bool {
    &&& n.system_id == e.system_id
    &&& n.recipient@ == e.user_email@
    &&& n.system_name@ == e.system_name@
    &&& n.down_since == e.utc_timestamp
    &&& n.down_after@ == humanized_minutes(e.down_after as int)
    &&& n.timezone@ == e.timezone@
    &&& n.language@ == e.language@
}

/// The notification of the outage `email_data`, with its grace window
/// already put in words as `down_after`.
pub fn notification_of(email_data: &EmailData, down_after: String) -> (r: Notification)
    ensures
        r.system_id == email_data.system_id,
        r.recipient@ == email_data.user_email@,
        r.system_name@ == email_data.system_name@,
        r.down_since == email_data.utc_timestamp,
        r.down_after@ == down_after@,
        r.timezone@ == email_data.timezone@,
        r.language@ == email_data.language@,
{
    Notification {
        system_id: email_data.system_id,
        recipient: email_data.user_email.clone(),
        system_name: email_data.system_name.clone(),
        down_since: email_data.utc_timestamp,
        down_after,
        timezone: email_data.timezone.clone(),
        language: email_data.language.clone(),
    }
}

/// The notification of one claimed outage.
pub fn compose_email(email_data: &EmailData) -> (r: Notification)
    requires
        email_data.down_after >= 0,
    ensures
        notifies(r, *email_data),
{
    let text = humanize_minutes(email_data.down_after as u64);
    notification_of(email_data, text)
}

/// One notification per claimed outage, in the same order.
pub fn compose_emails(claimed: &Vec<EmailData>) -> (r: Vec<Notification>)
    requires
        forall|k: int| 0 <= k < claimed@.len() ==> (#[trigger] claimed@[k]).down_after >= 0,
    ensures
        r@.len() == claimed@.len(),
        forall|k: int| 0 <= k < claimed@.len() ==> notifies(#[trigger] r@[k], claimed@[k]),
{
    let mut out: Vec<Notification> = Vec::new();
    let mut k: usize = 0;
    while k < claimed.len()
        invariant
            k <= claimed@.len(),
            forall|j: int| 0 <= j < claimed@.len() ==> (#[trigger] claimed@[j]).down_after >= 0,
            out@.len() == k,
            forall|j: int| 0 <= j < k ==> notifies(#[trigger] out@[j], claimed@[j]),
        decreases claimed@.len() - k,
    {
        let n = compose_email(&claimed[k]);
        out.push(n);
        k = k + 1;
    }
    out
}

} // verus!
