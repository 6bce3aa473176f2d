//! Force feedback of games on Linux, routed to haptic devices: the decisions.
//!
//! A probe in the kernel sees games upload effects to their controllers; the controllers' own event
//! streams say when an effect is played or stopped. The library decides what is made of both. It
//! holds no connection and waits for nothing: its functions take what happened and return what is
//! to be done.
//!
//! From the kernel to the actuators:
//! - [`ioctl`], [`capture`]: which requests are watched, and what is read from them.
//! - [`wire`]: how the probe tells of them.
//! - [`effect`], [`translate`]: effects, and the haptic sequences that they are translated into.
//! - [`device`]: controllers, and what their events say.
//! - [`store`], [`pending`], [`throttle`], [`app`], [`probe`]: which effect is played when.
//! - [`schedule`], [`playback`], [`sequence`]: what is sent when, and to which actuators.
//! - [`settings`], [`backoff`]: the command line, control lines, and waits before new tries.
//!
//! For the end-to-end tests: [`scenarios`], [`gamepad`], [`protocol`], [`timing`], [`harness`].
//!
//! Underneath: [`assoc`], [`table`], [`text`], [`words`], [`clock`].

pub mod app;
pub mod assoc;
pub mod backoff;
pub mod capture;
pub mod clock;
pub mod device;
pub mod effect;
pub mod gamepad;
pub mod harness;
pub mod ioctl;
pub mod pending;
pub mod playback;
pub mod probe;
pub mod protocol;
pub mod scenarios;
pub mod schedule;
pub mod sequence;
pub mod settings;
pub mod store;
pub mod table;
pub mod text;
pub mod throttle;
pub mod timing;
pub mod translate;
pub mod wire;
pub mod words;
