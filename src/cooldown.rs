//! Per-user command cooldowns: how long a user still waits before using a
//! command again, and the record kept of each use.

use vstd::prelude::*;
use crate::text::{decimal, decimal_string};

verus! {

/// The seconds from `last_use` to `now`; a last use stamped later than
/// `now` counts as just now.
pub open spec fn elapsed_secs(now: u64, last_use: u64) -> int {
    if now >= last_use { now - last_use } else { 0 }
}

/// The wait left on a cooldown of `cooldown` seconds after `elapsed` seconds.
pub open spec fn remaining_secs(cooldown: int, elapsed: int) -> int {
    if elapsed >= cooldown { 0 } else { cooldown - elapsed }
}

/// The wait left at `now` on a cooldown of `cooldown` seconds, given the
/// last recorded use, if any.
pub open spec fn remaining_cooldown(now: u64, last_use: Option<u64>, cooldown: u64) -> int {
    match last_use {
        None => 0,
        Some(t) => remaining_secs(cooldown as int, elapsed_secs(now, t)),
    }
}

/// The key under which the last use of a command by a user is stored:
/// `"{user}:{command}"`.
pub open spec fn cooldown_key(user_id: u64, cmd_name: Seq<char>) -> Seq<char> {
    decimal(user_id as nat) + seq![':'] + cmd_name
}

/// A cooldown of `c` seconds leaves `c - e` seconds to wait after `e`
/// seconds, and nothing once `e` reaches `c`.
pub proof fn lemma_remaining(c: nat, e: nat)
    ensures
        e < c ==> remaining_secs(c as int, e as int) == c - e,
        e >= c ==> remaining_secs(c as int, e as int) == 0,
{
}

/// The seconds a user still waits before using a command again.
pub fn get_remaining_cooldown(now: u64, last_use: Option<u64>, cooldown_secs: u64) -> (r: u64)
    ensures
        r == remaining_cooldown(now, last_use, cooldown_secs),
        last_use is None ==> r == 0,
        forall|t: u64| last_use == Some(t) && now >= t && now - t < cooldown_secs ==> r == cooldown_secs - (now - t),
        forall|t: u64| last_use == Some(t) && now >= t && now - t >= cooldown_secs ==> r == 0,
{
    match last_use {
        None => 0,
        Some(t) => {
            let elapsed = if now >= t { now - t } else { 0 };
            if elapsed >= cooldown_secs {
                0
            } else {
                cooldown_secs - elapsed
            }
        },
    }
}

/// Whether a command has cooled down for a user.
pub fn cooled_down(now: u64, last_use: Option<u64>, cooldown_secs: u64) -> (r: bool)
    ensures
        r == (remaining_cooldown(now, last_use, cooldown_secs) == 0),
{
    get_remaining_cooldown(now, last_use, cooldown_secs) == 0
}

/// The key under which the last use of a command by a user is stored.
pub fn user_cmd_key_str(user_id: u64, cmd_name: &str) -> (r: String)
    ensures
        r@ == cooldown_key(user_id, cmd_name@),
{
    proof {
        reveal_strlit(":");
    }
    let mut r = decimal_string(user_id);
    r.append(":");
    r.append(cmd_name);
    r
}

/// The stored last use of a command by a user.
pub struct CooldownData {
    /// The key, as [`user_cmd_key_str`] makes it.
    pub name_and_user: String,
    /// The UNIX time of the last use, in seconds.
    pub timestamp: u64,
}

impl CooldownData {
    pub fn new(name_and_user: String, timestamp: u64) -> (r: CooldownData)
        ensures
            r.name_and_user@ == name_and_user@,
            r.timestamp == timestamp,
    {
        CooldownData { name_and_user, timestamp }
    }
}

/// The record that stores a use of a command by a user at `now`, replacing
/// any earlier one under the same key.
pub fn use_last(user_id: u64, cmd_name: &str, now: u64) -> (r: CooldownData)
    ensures
        r.name_and_user@ == cooldown_key(user_id, cmd_name@),
        r.timestamp == now,
{
    CooldownData::new(user_cmd_key_str(user_id, cmd_name), now)
}

} // verus!
