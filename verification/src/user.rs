use vstd::prelude::*;

use crate::value_objects::{TelegramId, TimeZoneOffset, UtcTimestamp};

verus! {

/// A user of the bot.
#[derive(Debug, Clone, Copy, PartialEq, Eq, Structural)]
pub struct User {
    telegram_id: TelegramId,
    timezone: TimeZoneOffset,
    created_at: UtcTimestamp,
}

/// The fields of a user.
pub struct UserView {
    pub telegram_id: TelegramId,
    pub timezone: TimeZoneOffset,
    pub created_at: UtcTimestamp,
}

impl View for User {
    type V = UserView;

    closed spec fn view(&self) -> UserView {
        UserView { telegram_id: self.telegram_id, timezone: self.timezone, created_at: self.created_at }
    }
}

impl User {
    pub fn new(telegram_id: TelegramId, timezone: TimeZoneOffset, created_at: UtcTimestamp) -> (u: Self)
        ensures
            u@ == (UserView { telegram_id, timezone, created_at }),
    {
        User { telegram_id, timezone, created_at }
    }

    pub fn telegram_id(&self) -> (r: TelegramId)
        ensures
            r == self@.telegram_id,
    {
        self.telegram_id
    }

    pub fn timezone(&self) -> (r: TimeZoneOffset)
        ensures
            r == self@.timezone,
    {
        self.timezone
    }

    pub fn created_at(&self) -> (r: UtcTimestamp)
        ensures
            r == self@.created_at,
    {
        self.created_at
    }
}

} // verus!
