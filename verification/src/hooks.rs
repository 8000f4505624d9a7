use vstd::prelude::*;

use crate::text::{decimal, u64_text};

verus! {

/// Whether a user may run a command, given the blacklist flag stored for them:
/// only a user explicitly marked as blacklisted is refused.
pub fn may_run_command(blacklisted: Option<bool>) -> (allowed: bool)
    ensures
        allowed == (blacklisted != Some(true)),
{
    match blacklisted {
        None => true,
        Some(bl) => !bl,
    }
}

/// Why the command framework refused to dispatch a command.
pub enum DispatchFailure {
    /// A check of the command failed.
    CheckFailed,
    /// The caller exceeded a rate limit and may retry after `secs` seconds.
    Ratelimited { secs: u64 },
    /// The named command is disabled.
    CommandDisabled(String),
    /// The user is blocked.
    BlockedUser,
    /// The guild or its owner is blocked.
    BlockedGuild,
    /// The channel is blocked.
    BlockedChannel,
    /// The command only works in direct messages.
    OnlyForDm,
    /// The command only works in guilds.
    OnlyForGuilds,
    /// The command is for the bot's owners.
    OnlyForOwners,
    /// The caller lacks a required role.
    LackingRole,
    /// The caller lacks the permissions in these permission bits.
    LackingPermissions(u64),
    /// Too few arguments were given.
    NotEnoughArguments { min: u16, given: usize },
    /// Too many arguments were given.
    TooManyArguments { max: u16, given: usize },
}

/// The names of the permissions set in `bits`, as serenity's `Display` for
/// `Permissions` writes them.
pub uninterp spec fn permission_names(bits: u64) -> Seq<char>;

/// Calls serenity's `Display` for `Permissions` on the permissions with these
/// bits. Its source lists the names of the set permissions, in a fixed order,
/// separated by commas and `and`; the contract only names the result, which
/// depends on the bits alone.
#[verifier::external_body]
fn permissions_text(bits: u64) -> (s: String)
    ensures
        s@ == permission_names(bits),
{
    serenity::model::permissions::Permissions::from_bits_truncate(bits).to_string()
}

/// The text sent for a refusal, when one is sent; the permissions named in it
/// are `permissions` (the text of the lacking permissions).
pub open spec fn dispatch_reply_with(err: DispatchFailure, permissions: Seq<char>) -> Option<Seq<char>> {
    match err {
        DispatchFailure::Ratelimited { secs } => Some(
            "This command has been rate limited. Try again in "@ + decimal(secs as nat)
                + " second(s)."@,
        ),
        DispatchFailure::CommandDisabled(name) => Some(
            "The "@ + name@ + " command has been disabled and cannot be used."@,
        ),
        DispatchFailure::OnlyForDm => Some("This command is only available in Direct Messages."@),
        DispatchFailure::OnlyForGuilds => Some("This command is only available in guilds."@),
        DispatchFailure::OnlyForOwners => Some("This command is restricted to bot owners."@),
        DispatchFailure::LackingRole => Some("You lack the necessary role to use this command."@),
        DispatchFailure::LackingPermissions(_) => Some(
            "You lack the permissions required to use this command. Permissions needed: "@
                + permissions,
        ),
        DispatchFailure::NotEnoughArguments { min, given } => Some(
            "This command needs "@ + decimal(min as nat) + " arguments, but got "@ + decimal(
                given as nat,
            ) + "."@,
        ),
        DispatchFailure::TooManyArguments { max, given } => Some(
            "Max arguments allowed is "@ + decimal(max as nat) + ", but got "@ + decimal(given as nat)
                + "."@,
        ),
        _ => None,
    }
}

/// The text sent for a refusal, if any; other refusals are only logged.
pub open spec fn dispatch_reply(err: DispatchFailure) -> Option<Seq<char>> {
    match err {
        DispatchFailure::LackingPermissions(bits) => dispatch_reply_with(err, permission_names(bits)),
        _ => dispatch_reply_with(err, Seq::empty()),
    }
}

/// The view of an optional text.
pub open spec fn opt_text(o: Option<String>) -> Option<Seq<char>> {
    match o {
        Some(s) => Some(s@),
        None => None,
    }
}

/// The reply to a refusal, given the text of the lacking permissions.
pub fn dispatch_reply_text(err: DispatchFailure, permissions: &str) -> (r: Option<String>)
    ensures
        opt_text(r) == dispatch_reply_with(err, permissions@),
{
    match err {
        DispatchFailure::Ratelimited { secs } => {
            let n = u64_text(secs);
            let mut s = String::from_str("This command has been rate limited. Try again in ");
            s.append(n.as_str());
            s.append(" second(s).");
            Some(s)
        },
        DispatchFailure::CommandDisabled(name) => {
            let mut s = String::from_str("The ");
            s.append(name.as_str());
            s.append(" command has been disabled and cannot be used.");
            Some(s)
        },
        DispatchFailure::OnlyForDm => Some(
            String::from_str("This command is only available in Direct Messages."),
        ),
        DispatchFailure::OnlyForGuilds => Some(
            String::from_str("This command is only available in guilds."),
        ),
        DispatchFailure::OnlyForOwners => Some(
            String::from_str("This command is restricted to bot owners."),
        ),
        DispatchFailure::LackingRole => Some(
            String::from_str("You lack the necessary role to use this command."),
        ),
        DispatchFailure::LackingPermissions(_) => {
            let mut s = String::from_str(
                "You lack the permissions required to use this command. Permissions needed: ",
            );
            s.append(permissions);
            Some(s)
        },
        DispatchFailure::NotEnoughArguments { min, given } => {
            let a = u64_text(min as u64);
            let b = u64_text(given as u64);
            let mut s = String::from_str("This command needs ");
            s.append(a.as_str());
            s.append(" arguments, but got ");
            s.append(b.as_str());
            s.append(".");
            Some(s)
        },
        DispatchFailure::TooManyArguments { max, given } => {
            let a = u64_text(max as u64);
            let b = u64_text(given as u64);
            let mut s = String::from_str("Max arguments allowed is ");
            s.append(a.as_str());
            s.append(", but got ");
            s.append(b.as_str());
            s.append(".");
            Some(s)
        },
        _ => None,
    }
}

/// The reply to a refusal of the command framework, if one is sent.
pub fn dispatch_error_reply(err: DispatchFailure) -> (r: Option<String>)
    ensures
        opt_text(r) == dispatch_reply(err),
{
    match err {
        DispatchFailure::LackingPermissions(bits) => {
            let names = permissions_text(bits);
            dispatch_reply_text(err, names.as_str())
        },
        _ => dispatch_reply_text(err, ""),
    }
}

/// Failed checks and blocked users, guilds and channels get no reply; every other
/// refusal is answered.
pub proof fn lemma_which_refusals_are_answered(err: DispatchFailure)
    ensures
        dispatch_reply(err) is None <==> (err is CheckFailed || err is BlockedUser || err is BlockedGuild
            || err is BlockedChannel),
{
}

/// The refusals that carry data show it: the wait in whole seconds, the disabled
/// command's name, the names of exactly the missing permissions, and the
/// argument counts, numbers in decimal.
pub proof fn lemma_refusals_show_their_data(err: DispatchFailure)
    ensures
        err matches DispatchFailure::Ratelimited { secs } ==> dispatch_reply(err) == Some(
            "This command has been rate limited. Try again in "@ + decimal(secs as nat)
                + " second(s)."@,
        ),
        err matches DispatchFailure::CommandDisabled(name) ==> dispatch_reply(err) == Some(
            "The "@ + name@ + " command has been disabled and cannot be used."@,
        ),
        err matches DispatchFailure::LackingPermissions(bits) ==> dispatch_reply(err) == Some(
            "You lack the permissions required to use this command. Permissions needed: "@
                + permission_names(bits),
        ),
        err matches DispatchFailure::NotEnoughArguments { min, given } ==> dispatch_reply(err)
            == Some(
            "This command needs "@ + decimal(min as nat) + " arguments, but got "@ + decimal(
                given as nat,
            ) + "."@,
        ),
        err matches DispatchFailure::TooManyArguments { max, given } ==> dispatch_reply(err) == Some(
            "Max arguments allowed is "@ + decimal(max as nat) + ", but got "@ + decimal(given as nat)
                + "."@,
        ),
{
}

/// The reply to a message that holds the prefix and no command.
pub fn prefix_only_reply() -> (s: &'static str)
    ensures
        s@ == "Hello! I noticed that you provided my prefix but did not send a command. If you would like to get help on how to use my functionality, please run the help command."@,
{
    "Hello! I noticed that you provided my prefix but did not send a command. If you would like to get help on how to use my functionality, please run the help command."
}

/// The reply of the `test` command.
pub fn test_reply() -> (s: &'static str)
    ensures
        s@ == "shut up"@,
{
    "shut up"
}

} // verus!
