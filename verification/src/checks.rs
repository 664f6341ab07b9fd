//! The checks that gate commands on the feature switches of a server.
//!
//! A check reads one switch of the invoking server (none outside a server)
//! and decides whether the command may run, and which notice the invoker
//! gets when it may not.

use vstd::prelude::*;
use crate::embed::{Embed, EmbedView, Reply, ReplyView, rgb};
use crate::error::{debug_quoted, debug_str};
use crate::templates::status::{status_view, warning};
use crate::text::concat;

verus! {

/// The warning text of a disabled feature.
pub open spec fn not_enabled_text(feature: Seq<char>) -> Seq<char> {
    "The "@ + debug_quoted(feature) + " feature is not enabled in this server."@
}

/// The reply that tells the invoker that a feature is switched off.
pub open spec fn not_enabled_view(feature: Seq<char>) -> ReplyView {
    ReplyView {
        content: None,
        embed: Some(status_view(":warning:"@, "Feature Not Enabled"@, not_enabled_text(feature), rgb(253, 253, 150))),
        reply: true,
        ephemeral: true,
    }
}

/// An ephemeral reply warning that `feature` is not enabled in this server.
pub fn feature_not_enabled(feature: &str) -> (res: Reply)
    ensures
        res@ == not_enabled_view(feature@),
{
    let q = debug_str(feature);
    let a = concat("The ", q.as_str());
    let text = concat(a.as_str(), " feature is not enabled in this server.");
    let e: Embed = warning(Some("Feature Not Enabled"), text);
    Reply { content: None, embed: Some(e), reply: true, ephemeral: true }
}

/// What a check decided: whether the command runs, and the notice sent
/// to the invoker, if any.
pub struct CheckVerdict {
    pub allowed: bool,
    pub notice: Option<Reply>,
}

/// The verdict of a check on a switch (`None` outside a server), with the
/// answer outside a server and the feature name that the notice names.
pub open spec fn verdict_holds(
    v: CheckVerdict,
    setting: Option<bool>,
    outside_guild: bool,
    feature: Seq<char>,
) -> bool {
    match setting {
        None => v.allowed == outside_guild && v.notice is None,
        Some(true) => v.allowed && v.notice is None,
        Some(false) => !v.allowed && (v.notice matches Some(n) && n@ == not_enabled_view(feature)),
    }
}

fn verdict(setting: Option<bool>, outside_guild: bool, feature: &str) -> (res: CheckVerdict)
    ensures
        verdict_holds(res, setting, outside_guild, feature@),
{
    match setting {
        None => CheckVerdict { allowed: outside_guild, notice: None },
        Some(true) => CheckVerdict { allowed: true, notice: None },
        Some(false) => CheckVerdict { allowed: false, notice: Some(feature_not_enabled(feature)) },
    }
}

/// Admin commands run only in a server whose admin switch is on. When the
/// switch is off the notice names the "roles" feature.
pub fn admin(setting: Option<bool>) -> (res: CheckVerdict)
    ensures
        verdict_holds(res, setting, false, "roles"@),
{
    verdict(setting, false, "roles")
}

/// Role commands run only in a server whose role switch is on.
pub fn roles(setting: Option<bool>) -> (res: CheckVerdict)
    ensures
        verdict_holds(res, setting, false, "roles"@),
{
    verdict(setting, false, "roles")
}

/// Unserious commands run in direct messages, and in a server whose
/// unserious switch is on.
pub fn unserious(setting: Option<bool>) -> (res: CheckVerdict)
    ensures
        verdict_holds(res, setting, true, "unserious"@),
{
    verdict(setting, true, "unserious")
}

} // verus!
