//! Access-and-payment rules for assistant profiles: who may talk to an
//! assistant, what it costs, and how earnings are accounted for.
//!
//! An owner makes a profile with an access fee. A visitor gets a permission
//! from the owner, or by paying the fee; anyone may tip. The records live in a
//! [`Ledger`]; the operations of [`program`] are the only way to change them,
//! and each is specified by the function of the same name on [`LedgerView`].
//!
//! Time and currency come from the host: every operation that needs the time
//! takes it as an argument, and a payment is decided in two steps around the
//! transfer that the host makes (see [`transfer`]).

pub mod context;
pub mod error;
pub mod events;
pub mod laws;
pub mod ledger;
pub mod model;
pub mod program;
pub mod pubkey;
pub mod state;
mod table;
pub mod transfer;

pub use crate::context::{
    CheckPermission, GrantAccess, InitializeAssistant, PayForAccess, RevokeAccess, TipAssistant,
    UpdateAssistant,
};
pub use crate::error::{ChatmateError, LedgerError};
pub use crate::events::{
    AccessGranted, AccessRevoked, AssistantCreated, PaymentReceived, TipReceived,
};
pub use crate::ledger::Ledger;
pub use crate::model::LedgerView;
pub use crate::program::{
    access_transfer, check_permission, grant_access, initialize_assistant, pay_for_access,
    revoke_access, tip_assistant, tip_transfer, update_assistant,
};
pub use crate::pubkey::Pubkey;
pub use crate::state::{Assistant, Permission, PermissionType, MAX_USERNAME_BYTES};
pub use crate::transfer::{Settlement, Transfer};
