//! Embed templates for standardized messages: status embeds, the
//! success/failure state embed and the role list message.

pub mod rolelist;
pub mod status;

use vstd::prelude::*;
use crate::embed::{Embed, EmbedView, Button, ButtonView, rgb, info_color, warn_color, error_color};
use crate::error::BotError;
use crate::roles::RoleVitals;
use crate::text::concat;
use crate::templates::rolelist::{all_counted, rolelist_view, components_view};

verus! {

/// The look of a status embed: symbol, word and colour.
pub struct Status {
    pub symbol: &'static str,
    pub string: &'static str,
    pub color: u32,
}

impl Status {
    /// ":white_check_mark: Success", informative colour.
    pub fn success() -> (res: Status)
        ensures
            res.symbol@ == ":white_check_mark:"@,
            res.string@ == "Success"@,
            res.color == rgb(102, 51, 102),
    {
        Status { symbol: ":white_check_mark:", string: "Success", color: info_color() }
    }

    /// ":gear: Processing", waiting colour.
    pub fn processing() -> (res: Status)
        ensures
            res.symbol@ == ":gear:"@,
            res.string@ == "Processing"@,
            res.color == rgb(253, 253, 150),
    {
        Status { symbol: ":gear:", string: "Processing", color: warn_color() }
    }

    /// ":warning: Warning", waiting colour.
    pub fn warning() -> (res: Status)
        ensures
            res.symbol@ == ":warning:"@,
            res.string@ == "Warning"@,
            res.color == rgb(253, 253, 150),
    {
        Status { symbol: ":warning:", string: "Warning", color: warn_color() }
    }

    /// ":exclamation: Error", failure colour.
    pub fn error() -> (res: Status)
        ensures
            res.symbol@ == ":exclamation:"@,
            res.string@ == "Error"@,
            res.color == rgb(178, 34, 34),
    {
        Status { symbol: ":exclamation:", string: "Error", color: error_color() }
    }
}

/// A bot status embed: "symbol word symbol" as title, the description and
/// the status colour.
pub fn status_embed(status: Status, description: String) -> (res: Embed)
    ensures
        res@ == (EmbedView {
            title: Some(status.symbol@ + " "@ + status.string@ + " "@ + status.symbol@),
            description: Some(description@),
            color: Some(status.color),
            footer: None,
            fields: Seq::empty(),
        }),
{
    let mut e = Embed::new();
    let a = concat(status.symbol, " ");
    let b = concat(a.as_str(), status.string);
    let c = concat(b.as_str(), " ");
    e.title = Some(concat(c.as_str(), status.symbol));
    e.description = Some(description);
    e.color = Some(status.color);
    e
}

/// A success or failure embed with the given text.
pub fn state_embed(success: bool, text: &str) -> (res: Embed)
    ensures
        res@ == (EmbedView {
            title: Some(
                if success {
                    ":white_check_mark: Success :white_check_mark:"@
                } else {
                    ":warning: Failure :warning:"@
                },
            ),
            description: Some(text@),
            color: Some(if success { rgb(102, 51, 102) } else { rgb(178, 34, 34) }),
            footer: None,
            fields: Seq::empty(),
        }),
{
    let mut e = Embed::new();
    e.description = Some(String::from_str(text));
    e.title = Some(
        String::from_str(
            if success {
                ":white_check_mark: Success :white_check_mark:"
            } else {
                ":warning: Failure :warning:"
            },
        ),
    );
    e.color = Some(
        if success {
            info_color()
        } else {
            error_color()
        },
    );
    e
}

/// The embed shown while a request is being processed.
pub fn processing_embed() -> (res: Embed)
    ensures
        res@ == (EmbedView {
            title: None,
            description: Some("Processing, please wait..."@),
            color: Some(rgb(253, 253, 150)),
            footer: None,
            fields: Seq::empty(),
        }),
{
    let mut e = Embed::new();
    e.color = Some(warn_color());
    e.description = Some(String::from_str("Processing, please wait..."));
    e
}

/// The embed of a role list (see `rolelist::embed`).
pub fn rolelist_embed(group: &str, role_list: &Vec<RoleVitals>) -> (res: Result<Embed, BotError>)
    ensures
        all_counted(role_list@) ==> (res matches Ok(e) && e@ == rolelist_view(group@, role_list@, rgb(102, 51, 102))),
        !all_counted(role_list@) ==> res matches Err(BotError::UserCountNotCalculated),
{
    rolelist::rolelist_embed_colored(group, role_list, info_color())
}

/// The buttons of a role list (see `rolelist::components`).
pub fn rolelist_components(group: &str) -> (res: Vec<Button>)
    ensures
        res@.map_values(|b: Button| b@) == components_view(group@),
{
    rolelist::components(group)
}

} // verus!
