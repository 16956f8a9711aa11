//! Userspace side of a single-stepping and page-fault-tracking channel
//! between a controlling process and a hypervisor driver.
//!
//! The driver pauses a guest on page faults and after single steps and
//! reports each pause as an event through a mailbox in shared memory. The
//! controlling process asks for pages to be tracked and for stepping to
//! begin, looks at each event, and acknowledges it to let the guest go
//! on.
//!
//! This library is the deciding half of the controlling process. It keeps
//! the state of the protocol, decodes events, runs chains of event
//! handlers and says which control call is to be made next; it never
//! touches a device, a clock or a thread. The acting half carries each
//! control call to the driver and reports its status, copies the shared
//! memory to the library's mailbox and the library's acknowledgements
//! back, and waits.
//!
//! - [`raw_spinlock`], [`shared_mem`], [`types`]: the lock word, the
//!   mailbox and the layout of what travels through it.
//! - [`api`], [`ioctls`]: events, errors, control calls and the
//!   connection.
//! - [`context`]: the named blobs that handlers pass along a chain.
//! - [`single_stepper`]: handlers that see one event per call, and the
//!   stepper that runs a chain of them over every event.
//! - [`event_handlers`]: handlers that consume many events, and the chain
//!   that runs a sequence of them once.
//! - [`page_tracking`]: which pages are tracked after which control calls.
//! - [`text`], [`config`], [`cpufreq`], [`vmserver_client`]: what a
//!   program around the library needs beside it.

pub mod api;
pub mod config;
pub mod context;
pub mod cpufreq;
pub mod event_handlers;
pub mod ioctls;
pub mod page_tracking;
pub mod raw_spinlock;
pub mod shared_mem;
pub mod single_stepper;
pub mod text;
pub mod types;
pub mod vmserver_client;
