use vstd::prelude::*;

verus! {

/// Static configuration: the one guild, forum channel and support role the
/// system operates against. Fixed at process start, immutable thereafter.
#[derive(Clone, Copy, Debug, PartialEq, Eq, Structural)]
pub struct Config {
    /// Identifier of the guild whose membership decides support status.
    pub guild_id: u64,
    /// Identifier of the forum channel whose child threads are tickets.
    pub forum_channel_id: u64,
    /// Identifier of the privileged support role.
    pub support_role_id: u64,
}

impl Config {
    pub fn new(guild_id: u64, forum_channel_id: u64, support_role_id: u64) -> (c: Config)
        ensures
            c.guild_id == guild_id,
            c.forum_channel_id == forum_channel_id,
            c.support_role_id == support_role_id,
    {
        Config { guild_id, forum_channel_id, support_role_id }
    }
}

} // verus!
