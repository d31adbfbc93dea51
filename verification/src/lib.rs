//! Host side of a sandboxed guest module: a verified model of the
//! host-guest memory bridge and call protocol.
//!
//! The library holds the logic of the bridge — layout validation, the
//! buffer capability, and the exact messages exchanged with the guest's
//! allocator and entry point — as verified code. The embedding that
//! actually drives a guest (engine setup, linking, the asynchronous
//! calls themselves) lives outside the library and consults it for
//! every decision.

mod buffer;
mod context;
mod guest;
mod instance;
mod layout;
mod protocol;

pub use buffer::GuestBuffer;
pub use context::CrimeCtx;
pub use guest::BumpAlloc;
pub use guest::align_up;
pub use guest::alloc_grant;
pub use guest::enter_mut;
pub use guest::layout_valid;
pub use guest::lemma_grants_disjoint;
pub use instance::ModelInstance;
pub use instance::lemma_instance_grants_disjoint;
pub use layout::BufLayout;
pub use protocol::alloc_response;
pub use protocol::dealloc_request;
pub use protocol::realloc_request;
pub use protocol::realloc_response;
