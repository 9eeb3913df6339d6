//! The configuration bag handed to every operation.

use vstd::prelude::*;

verus! {

/// Identifiers and startup state shared by all commands.
///
/// Built once at process start from configuration and passed by reference
/// into every operation; immutable after construction. All platform
/// identifiers are opaque 64-bit values.
#[derive(Clone, Copy, Debug, PartialEq, Eq, Structural)]
pub struct Data {
    /// Seconds since the Unix epoch when the bot came up.
    pub bot_startup_timestamp: u64,
    /// The well-known "everyone" role, denied view/connect on a closed room.
    pub discord_role_everyone: u64,
    /// The role that marks a user as having an active room.
    pub discord_role_hotel_member: u64,
    /// The fixed parent category every room is created under.
    pub discord_category_rooms: u64,
    /// The server all commands operate in.
    pub discord_guild: u64,
    /// The channel moderation alerts are sent to.
    pub discord_channel_alerts: u64,
}

impl Data {
    /// Bundles the configured identifiers.
    pub fn new(
        bot_startup_timestamp: u64,
        discord_role_everyone: u64,
        discord_role_hotel_member: u64,
        discord_category_rooms: u64,
        discord_guild: u64,
        discord_channel_alerts: u64,
    ) -> (r: Self)
        ensures
            r == (Data {
                bot_startup_timestamp,
                discord_role_everyone,
                discord_role_hotel_member,
                discord_category_rooms,
                discord_guild,
                discord_channel_alerts,
            }),
    {
        Data {
            bot_startup_timestamp,
            discord_role_everyone,
            discord_role_hotel_member,
            discord_category_rooms,
            discord_guild,
            discord_channel_alerts,
        }
    }
}

} // verus!
