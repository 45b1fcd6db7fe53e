use vstd::prelude::*;

use crate::decimal::{decimal, law_parse_reads_rendered, parse_u64_spec};
use crate::decimal::parse_u64;
use crate::text::opt_view;

verus! {

/// Every bit that serenity's `Permissions` names (bits 0 to 40).
pub const KNOWN_PERMISSION_BITS: u64 = 0x1FF_FFFF_FFFF;

/// The Administrator permission bit.
pub const ADMINISTRATOR: u64 = 0x8;

/// The Manage Channels permission bit.
pub const MANAGE_CHANNELS: u64 = 0x10;

/// `Permissions::from_bits_truncate` of serenity: the given bits with every
/// bit that names no permission cleared (`bits & all().bits`).
#[verifier::external_body]
fn permissions_from_bits_truncate(bits: u64) -> (r: u64)
    ensures
        r == bits & KNOWN_PERMISSION_BITS,
{
    serenity::model::permissions::Permissions::from_bits_truncate(bits).bits
}

/// `Permissions::manage_channels` of serenity: whether the set holds the
/// Manage Channels bit (`contains(MANAGE_CHANNELS)`).
#[verifier::external_body]
fn permissions_manage_channels(bits: u64) -> (r: bool)
    ensures
        r == (bits & MANAGE_CHANNELS == MANAGE_CHANNELS),
{
    serenity::model::permissions::Permissions { bits }.manage_channels()
}

/// `Permissions::administrator` of serenity: whether the set holds the
/// Administrator bit (`contains(ADMINISTRATOR)`).
#[verifier::external_body]
fn permissions_administrator(bits: u64) -> (r: bool)
    ensures
        r == (bits & ADMINISTRATOR == ADMINISTRATOR),
{
    serenity::model::permissions::Permissions { bits }.administrator()
}

/// A member's permission bits let them change a channel's NSFW flag: they
/// may manage channels, or they are an administrator.
pub open spec fn grants_nsfw_toggle(bits: u64) -> bool {
    bits & MANAGE_CHANNELS != 0 || bits & ADMINISTRATOR != 0
}

/// What the member's permission field says about the `nsfw` command.
#[derive(Debug, PartialEq, Eq, Clone, Copy)]
pub enum PermissionVerdict {
    /// The field is missing or is not a decimal `u64`: the command does nothing.
    Unreadable,
    /// The member may not change a channel's NSFW flag.
    Denied,
    /// The member may change a channel's NSFW flag.
    Allowed,
}

/// The verdict for a permission field as Discord sends it (a decimal string).
pub open spec fn permission_verdict(permissions: Option<Seq<char>>) -> PermissionVerdict {
    match permissions {
        None => PermissionVerdict::Unreadable,
        Some(text) => match parse_u64_spec(text) {
            None => PermissionVerdict::Unreadable,
            Some(bits) => if grants_nsfw_toggle(bits) {
                PermissionVerdict::Allowed
            } else {
                PermissionVerdict::Denied
            },
        },
    }
}

/// For a member whose permission field is the decimal text of `bits`, the
/// command is allowed exactly when bit 3 (Administrator) or bit 4 (Manage
/// Channels) is set; text that is not a number is never allowed.
pub proof fn law_permission_by_bits(bits: u64, text: Seq<char>)
    ensures
        permission_verdict(Some(decimal(bits as nat))) == if bits & 0x18u64 != 0 {
            PermissionVerdict::Allowed
        } else {
            PermissionVerdict::Denied
        },
        parse_u64_spec(text) is None ==> permission_verdict(Some(text))
            == PermissionVerdict::Unreadable,
        permission_verdict(None) == PermissionVerdict::Unreadable,
{
    law_parse_reads_rendered(bits);
    assert((bits & 0x10u64 != 0 || bits & 0x8u64 != 0) == (bits & 0x18u64 != 0)) by (bit_vector);
}

/// Reads a member's permission field and decides whether they may toggle NSFW.
pub fn check_nsfw_permission(permissions: &Option<String>) -> (r: PermissionVerdict)
    ensures
        r == permission_verdict(opt_view(*permissions)),
{
    match permissions {
        None => PermissionVerdict::Unreadable,
        Some(text) => match parse_u64(text.as_str()) {
            None => PermissionVerdict::Unreadable,
            Some(raw) => {
                let bits = permissions_from_bits_truncate(raw);
                let manage = permissions_manage_channels(bits);
                let admin = permissions_administrator(bits);
                assert(((raw & 0x1FF_FFFF_FFFFu64) & 0x10u64 == 0x10u64) == (raw & 0x10u64 != 0))
                    by (bit_vector);
                assert(((raw & 0x1FF_FFFF_FFFFu64) & 0x8u64 == 0x8u64) == (raw & 0x8u64 != 0))
                    by (bit_vector);
                if manage || admin {
                    PermissionVerdict::Allowed
                } else {
                    PermissionVerdict::Denied
                }
            },
        },
    }
}

} // verus!
