//! Plain-value descriptions of what the bot puts on screen: embeds, select
//! menu options, buttons and replies. The Discord client turns them into
//! its own builders when it sends them.

use vstd::prelude::*;
use crate::text::{concat, u64_to_decimal, decimal};

verus! {

/// A named field of an embed.
pub struct EmbedField {
    pub name: String,
    pub value: String,
    pub inline: bool,
}

/// The abstract contents of an [EmbedField].
pub struct EmbedFieldView {
    pub name: Seq<char>,
    pub value: Seq<char>,
    pub inline: bool,
}

impl View for EmbedField {
    type V = EmbedFieldView;

    open spec fn view(&self) -> EmbedFieldView {
        EmbedFieldView { name: self.name@, value: self.value@, inline: self.inline }
    }
}

/// A rich message block.
pub struct Embed {
    pub title: Option<String>,
    pub description: Option<String>,
    pub color: Option<u32>,
    pub footer: Option<String>,
    pub fields: Vec<EmbedField>,
}

/// The abstract contents of an [Embed].
pub struct EmbedView {
    pub title: Option<Seq<char>>,
    pub description: Option<Seq<char>>,
    pub color: Option<u32>,
    pub footer: Option<Seq<char>>,
    pub fields: Seq<EmbedFieldView>,
}

/// The view of an optional string.
pub open spec fn opt_view(o: Option<String>) -> Option<Seq<char>> {
    match o {
        Some(s) => Some(s@),
        None => None,
    }
}

impl View for Embed {
    type V = EmbedView;

    open spec fn view(&self) -> EmbedView {
        EmbedView {
            title: opt_view(self.title),
            description: opt_view(self.description),
            color: self.color,
            footer: opt_view(self.footer),
            fields: self.fields@.map_values(|f: EmbedField| f@),
        }
    }
}

impl Embed {
    /// An embed with nothing set.
    pub fn new() -> (res: Embed)
        ensures
            res@ == (EmbedView {
                title: None,
                description: None,
                color: None,
                footer: None,
                fields: Seq::empty(),
            }),
    {
        let res = Embed { title: None, description: None, color: None, footer: None, fields: Vec::new() };
        assert(res@.fields =~= Seq::<EmbedFieldView>::empty());
        res
    }

    /// The same embed with one more field at the end.
    pub fn field(self, name: String, value: String, inline: bool) -> (res: Embed)
        ensures
            res@ == (EmbedView {
                fields: self@.fields.push(EmbedFieldView { name: name@, value: value@, inline }),
                ..self@
            }),
    {
        let mut res = self;
        let ghost before = res.fields@;
        res.fields.push(EmbedField { name, value, inline });
        assert(res.fields@.map_values(|f: EmbedField| f@) =~= before.map_values(
            |f: EmbedField| f@,
        ).push(EmbedFieldView { name: name@, value: value@, inline }));
        res
    }

    /// The same embed with the given footer text.
    pub fn footer(self, text: String) -> (res: Embed)
        ensures
            res@ == (EmbedView { footer: Some(text@), ..self@ }),
    {
        let mut res = self;
        res.footer = Some(text);
        res
    }
}

/// An option of a select menu.
pub struct SelectOption {
    pub label: String,
    pub value: String,
    pub default_selected: bool,
}

/// The abstract contents of a [SelectOption].
pub struct SelectOptionView {
    pub label: Seq<char>,
    pub value: Seq<char>,
    pub default_selected: bool,
}

impl View for SelectOption {
    type V = SelectOptionView;

    open spec fn view(&self) -> SelectOptionView {
        SelectOptionView {
            label: self.label@,
            value: self.value@,
            default_selected: self.default_selected,
        }
    }
}

/// The views of a list of select options.
pub open spec fn options_view(v: Seq<SelectOption>) -> Seq<SelectOptionView> {
    v.map_values(|o: SelectOption| o@)
}

/// A select menu offering string options.
pub struct SelectMenu {
    pub custom_id: String,
    pub options: Vec<SelectOption>,
    pub placeholder: Option<String>,
    pub min_values: Option<u8>,
    pub max_values: Option<u8>,
}

/// The abstract contents of a [SelectMenu].
pub struct SelectMenuView {
    pub custom_id: Seq<char>,
    pub options: Seq<SelectOptionView>,
    pub placeholder: Option<Seq<char>>,
    pub min_values: Option<u8>,
    pub max_values: Option<u8>,
}

impl View for SelectMenu {
    type V = SelectMenuView;

    open spec fn view(&self) -> SelectMenuView {
        SelectMenuView {
            custom_id: self.custom_id@,
            options: options_view(self.options@),
            placeholder: opt_view(self.placeholder),
            min_values: self.min_values,
            max_values: self.max_values,
        }
    }
}

/// Colour of a button.
#[derive(PartialEq, Eq, Structural, Clone, Copy)]
pub enum ButtonStyle {
    Primary,
    Danger,
}

/// A button of a message.
pub struct Button {
    pub custom_id: String,
    pub label: String,
    pub style: ButtonStyle,
}

/// The abstract contents of a [Button].
pub struct ButtonView {
    pub custom_id: Seq<char>,
    pub label: Seq<char>,
    pub style: ButtonStyle,
}

impl View for Button {
    type V = ButtonView;

    open spec fn view(&self) -> ButtonView {
        ButtonView { custom_id: self.custom_id@, label: self.label@, style: self.style }
    }
}

/// A message sent in reply to a command.
pub struct Reply {
    pub content: Option<String>,
    pub embed: Option<Embed>,
    pub reply: bool,
    pub ephemeral: bool,
}

/// The abstract contents of a [Reply].
pub struct ReplyView {
    pub content: Option<Seq<char>>,
    pub embed: Option<EmbedView>,
    pub reply: bool,
    pub ephemeral: bool,
}

impl View for Reply {
    type V = ReplyView;

    open spec fn view(&self) -> ReplyView {
        ReplyView {
            content: opt_view(self.content),
            embed: match self.embed {
                Some(e) => Some(e@),
                None => None,
            },
            reply: self.reply,
            ephemeral: self.ephemeral,
        }
    }
}

/// The 24-bit colour value of red, green and blue components.
pub open spec fn rgb(red: u8, green: u8, blue: u8) -> u32 {
    (red as int * 65536 + green as int * 256 + blue as int) as u32
}

/// A colour from its components, as `Colour::from_rgb` builds it:
/// `(red << 16) | (green << 8) | blue`.
pub fn from_rgb(red: u8, green: u8, blue: u8) -> (res: u32)
    ensures
        res == rgb(red, green, blue),
{
    (red as u32) * 65536 + (green as u32) * 256 + (blue as u32)
}

/// Colour of informative and successful messages.
pub fn info_color() -> (res: u32)
    ensures
        res == rgb(102, 51, 102),
{
    from_rgb(102, 51, 102)
}

/// Colour of warnings and of messages still being processed.
pub fn warn_color() -> (res: u32)
    ensures
        res == rgb(253, 253, 150),
{
    from_rgb(253, 253, 150)
}

/// Colour of errors.
pub fn error_color() -> (res: u32)
    ensures
        res == rgb(178, 34, 34),
{
    from_rgb(178, 34, 34)
}

/// The text Discord renders as a link to a channel: `<#id>`.
pub open spec fn channel_mention_spec(id: u64) -> Seq<char> {
    "<#"@ + decimal(id as nat) + ">"@
}

/// Mention of a channel, as `ChannelId::mention` displays it.
pub fn channel_mention(id: u64) -> (res: String)
    ensures
        res@ == channel_mention_spec(id),
{
    let digits = u64_to_decimal(id);
    let s = concat("<#", digits.as_str());
    concat(s.as_str(), ">")
}

/// The text Discord renders as a link to a role: `<@&id>`.
pub open spec fn role_mention_spec(id: u64) -> Seq<char> {
    "<@&"@ + decimal(id as nat) + ">"@
}

/// Mention of a role, as `RoleId::mention` displays it.
pub fn role_mention(id: u64) -> (res: String)
    ensures
        res@ == role_mention_spec(id),
{
    let digits = u64_to_decimal(id);
    let s = concat("<@&", digits.as_str());
    concat(s.as_str(), ">")
}

} // verus!
