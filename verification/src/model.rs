//! What the bot exchanges with Discord, as plain data: the options of an
//! incoming command, the embeds and responses it sends, and the slash
//! commands it registers.

use vstd::prelude::*;

verus! {

/// The value of one option of an incoming command.
pub enum OptionValue {
    /// The option came without a value.
    Missing,
    /// The option's value is this text.
    Text(String),
    /// The option's value is something other than text.
    Other,
}

/// One option of an incoming command.
pub struct CommandOption {
    pub name: String,
    pub value: OptionValue,
}

/// A titled field of an embed, shown beside its neighbours when `inline`.
pub struct EmbedField {
    pub name: String,
    pub value: String,
    pub inline: bool,
}

/// A rich message block.
pub struct Embed {
    pub title: Option<String>,
    pub description: Option<String>,
    pub fields: Vec<EmbedField>,
}

/// The answer to an interaction: a message with one embed, or an empty
/// message when `embed` is `None`.
pub struct InteractionResponse {
    pub embed: Option<Embed>,
}

/// The kind of value a command option takes.
#[derive(Copy, Clone, Debug, PartialEq, Eq, Structural)]
pub enum OptionKind {
    String,
}

/// A value offered for a command option, shown as `name`.
pub struct CommandChoice {
    pub name: String,
    pub value: String,
}

/// An option of a slash command.
pub struct CommandOptionSpec {
    pub name: String,
    pub description: String,
    pub required: bool,
    pub kind: OptionKind,
    pub choices: Vec<CommandChoice>,
}

/// A slash command to register.
pub struct CommandSpec {
    pub name: String,
    pub description: String,
    pub options: Vec<CommandOptionSpec>,
}

} // verus!
