//! The decision logic of a loopback automation bridge.
//!
//! - `addr`: the address the bridge listens on, from a base URL or a port.
//! - `router`: the endpoint that a method and a path name.
//! - `handlers`: what each endpoint admits, and the reply for each outcome.
//! - `reply`: replies, their fixed forms and the cross-origin headers.
//! - `permissions`: the status reported for the grants automation needs.
//! - `dispatch`: where work runs when host calls are bound to the main thread.
//! - `token`, `overlay`: the credentials token and the overlay's position.
//! - `text`: the character-level operations the others are built on.
//!
//! Nothing here listens, reads or touches the host: the caller decodes
//! bodies, performs the work that a handler admits and sends the reply.

pub mod addr;
pub mod dispatch;
pub mod handlers;
pub mod overlay;
pub mod permissions;
pub mod reply;
pub mod router;
pub mod text;
pub mod token;
