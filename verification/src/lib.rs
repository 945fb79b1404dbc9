//! A state-dispatch runtime for a small payment flow.
//!
//! One logical "current state" of varying concrete kind is held together with
//! its tag; externally submitted actions are routed, through a write-once
//! dispatch table, to whichever state is active. The active state decides
//! whether to mutate itself in place or to construct its successor, and every
//! committed transition is recorded as an event delivered to observers in
//! commit order.

pub mod api;
pub mod awaiting_info;
pub mod card;
pub mod emv_payment;
pub mod helpers;
pub mod payment_success;
pub mod registry;
pub mod state_manager;
pub mod state_trait;
pub mod text;
pub mod types;
