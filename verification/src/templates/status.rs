//! Constructors of the status embeds: error, info, processing, success and
//! warning, each with its icon, default title and colour.

use vstd::prelude::*;
use crate::embed::{Embed, EmbedView, rgb, info_color, warn_color, error_color};
use crate::text::concat;

verus! {

/// The title of a status embed: the title between two icons.
pub open spec fn title_spec(icon: Seq<char>, title: Seq<char>) -> Seq<char> {
    icon + " "@ + title + " "@ + icon
}

/// The view of an optional title, with a fallback.
pub open spec fn title_or(title: Option<&str>, default: Seq<char>) -> Seq<char> {
    match title {
        Some(t) => t@,
        None => default,
    }
}

/// The view of a status embed.
pub open spec fn status_view(
    icon: Seq<char>,
    title: Seq<char>,
    description: Seq<char>,
    color: u32,
) -> EmbedView {
    EmbedView {
        title: Some(title_spec(icon, title)),
        description: Some(description),
        color: Some(color),
        footer: None,
        fields: Seq::empty(),
    }
}

/// `icon title icon`.
pub fn template_title(icon: &str, title: &str) -> (res: String)
    ensures
        res@ == title_spec(icon@, title@),
{
    let a = concat(icon, " ");
    let b = concat(a.as_str(), title);
    let c = concat(b.as_str(), " ");
    concat(c.as_str(), icon)
}

fn status_embed(icon: &str, title: &str, description: String, color: u32) -> (res: Embed)
    ensures
        res@ == status_view(icon@, title@, description@, color),
{
    let mut e = Embed::new();
    e.title = Some(template_title(icon, title));
    e.description = Some(description);
    e.color = Some(color);
    e
}

/// An error embed; the title defaults to "Error".
pub fn error(title: Option<&str>, description: String) -> (res: Embed)
    ensures
        res@ == status_view(":exclamation:"@, title_or(title, "Error"@), description@, rgb(178, 34, 34)),
{
    let t = match title {
        Some(t) => t,
        None => "Error",
    };
    status_embed(":exclamation:", t, description, error_color())
}

/// An informative embed; the title defaults to "Info".
pub fn info(title: Option<&str>, description: String) -> (res: Embed)
    ensures
        res@ == status_view(":information_source:"@, title_or(title, "Info"@), description@, rgb(102, 51, 102)),
{
    let t = match title {
        Some(t) => t,
        None => "Info",
    };
    status_embed(":information_source:", t, description, info_color())
}

/// The embed shown while a request is being processed.
pub fn processing() -> (res: Embed)
    ensures
        res@ == (EmbedView {
            footer: Some("This will finish before the heat death of the universe, I promise."@),
            ..status_view(":gear:"@, "Processing"@, "Please wait..."@, rgb(253, 253, 150))
        }),
{
    status_embed(":gear:", "Processing", String::from_str("Please wait..."), warn_color()).footer(
        String::from_str("This will finish before the heat death of the universe, I promise."),
    )
}

/// A success embed; the title defaults to "Success".
pub fn success(title: Option<&str>, description: String) -> (res: Embed)
    ensures
        res@ == status_view(":white_check_mark:"@, title_or(title, "Success"@), description@, rgb(102, 51, 102)),
{
    let t = match title {
        Some(t) => t,
        None => "Success",
    };
    status_embed(":white_check_mark:", t, description, info_color())
}

/// A warning embed; the title defaults to "Warning".
pub fn warning(title: Option<&str>, description: String) -> (res: Embed)
    ensures
        res@ == status_view(":warning:"@, title_or(title, "Warning"@), description@, rgb(253, 253, 150)),
{
    let t = match title {
        Some(t) => t,
        None => "Warning",
    };
    status_embed(":warning:", t, description, warn_color())
}

} // verus!
