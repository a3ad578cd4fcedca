//! Commands: what a command is, how it answers, and where it is registered.

pub mod bundle;
pub mod context;
pub mod deployment;
pub mod interaction;
pub mod locale;
pub mod localized;
pub mod registry;
pub mod response;
pub mod routing;

pub use crate::commands::bundle::Bundle;
pub use crate::commands::bundle::CommandBundle;
pub use crate::commands::context::CommandContext;
pub use crate::commands::bundle::CommandError;
pub use crate::commands::bundle::CommandRegistration;
pub use crate::commands::bundle::CommandScope;
pub use crate::commands::interaction::CommandData;
pub use crate::commands::interaction::CommandDataOption;
pub use crate::commands::interaction::CommandOptionValue;
pub use crate::commands::interaction::Interaction;
pub use crate::commands::interaction::InteractionData;
pub use crate::commands::interaction::InteractionType;
pub use crate::commands::locale::Locale;
pub use crate::commands::localized::AutocompleteChoice;
pub use crate::commands::localized::CommandOptionChoice;
pub use crate::commands::localized::CommandOptionChoiceValue;
pub use crate::commands::localized::LocalizedText;
pub use crate::commands::response::InteractionResponse;
pub use crate::commands::response::InteractionResponseData;
pub use crate::commands::response::InteractionResponseType;
pub use crate::commands::response::ResponseCall;
