//! Notifications between the parts of the bot.

use vstd::prelude::*;
use std::rc::Rc;

verus! {

/// Somebody who takes notifications.
pub trait Subscriber {
    /// Takes one notification.
    fn handle_notification(&mut self, message: &str);
}

/// Somebody who hands notifications to subscribers.
pub trait Publisher {
    /// Adds a subscriber.
    fn add_subscriber(&self, subscriber: Rc<dyn Subscriber>);

    /// Hands a notification to every subscriber.
    fn notify_subscribers(&self, message: &str);
}

} // verus!
