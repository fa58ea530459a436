use vstd::prelude::*;

pub mod ceremony;
pub mod codec;
pub mod csrf_token;
pub mod dashboard;
pub mod error;
pub mod flows;
pub mod htmx;
pub mod identity;
pub mod mail;
pub mod model;
pub mod session_value;
pub mod store;
pub mod values;

pub use identity::User;
pub use model::{
    DeadlineType, Goal, GoalBehavior, Group, GroupDisplay, GroupLink, GroupWithInfo, Tone,
    WebauthnCredential,
};
pub use session_value::SessionValue;

verus! {

} // verus!
