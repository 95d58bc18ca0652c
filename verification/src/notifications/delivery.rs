//! Which message each requested channel sends when a notification is
//! delivered.
use vstd::prelude::*;
use crate::notifications::models::NotificationChannel;
use crate::text::own;

verus! {

/// One message to send on one channel.
pub enum DeliveryAction {
    /// An HTML or plain-text e-mail.
    SendEmail { to: String, subject: String, body: String, is_html: bool },
    SendSms { to: String, message: String },
    SendPush { device_token: String, title: String, body: String },
    /// A channel that no sender serves; it is logged and skipped.
    Unsupported { channel: NotificationChannel },
}

/// `a` is what a notification with `title` and `message` sends on `channel`.
/// The addresses are the placeholders that delivery uses until recipients'
/// contact details are looked up.
pub open spec fn action_for(a: DeliveryAction, channel: NotificationChannel, title: Seq<char>, message: Seq<char>) -> bool {
    match channel {
        NotificationChannel::Email => a matches DeliveryAction::SendEmail { to, subject, body, is_html }
            && to@ == "user@example.com"@ && subject@ == title && body@ == message && is_html,
        NotificationChannel::SMS => a matches DeliveryAction::SendSms { to, message: m }
            && to@ == "+1234567890"@ && m@ == message,
        NotificationChannel::Push => a matches DeliveryAction::SendPush { device_token, title: t, body }
            && device_token@ == "device_token"@ && t@ == title && body@ == message,
        _ => a == DeliveryAction::Unsupported { channel },
    }
}

/// The messages a notification sends, one per requested channel, in the
/// order of the channels; the sender runs them in turn and stops at the
/// first failure.
pub fn delivery_plan(channels: &Vec<NotificationChannel>, title: &str, message: &str) -> (plan: Vec<DeliveryAction>)
    ensures
        plan@.len() == channels@.len(),
        forall|i: int| 0 <= i < plan@.len() ==> #[trigger] action_for(plan@[i], channels@[i], title@, message@),
{
    let mut plan: Vec<DeliveryAction> = Vec::new();
    let mut i: usize = 0;
    while i < channels.len()
        invariant
            i <= channels@.len(),
            plan@.len() == i,
            forall|k: int| 0 <= k < i ==> #[trigger] action_for(plan@[k], channels@[k], title@, message@),
        decreases channels.len() - i,
    {
        let a = match channels[i] {
            NotificationChannel::Email => DeliveryAction::SendEmail {
                to: own("user@example.com"),
                subject: own(title),
                body: own(message),
                is_html: true,
            },
            NotificationChannel::SMS => DeliveryAction::SendSms { to: own("+1234567890"), message: own(message) },
            NotificationChannel::Push => DeliveryAction::SendPush {
                device_token: own("device_token"),
                title: own(title),
                body: own(message),
            },
            c => DeliveryAction::Unsupported { channel: c },
        };
        plan.push(a);
        i = i + 1;
    }
    plan
}

} // verus!
