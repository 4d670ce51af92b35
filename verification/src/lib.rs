//! The logic of gnyprland, a status bar for the Hyprland compositor.
//!
//! The crate holds what the bar decides and computes, apart from any window
//! toolkit and from any socket:
//!
//! - the control protocol between the bar and its command-line client:
//!   [`frame`] puts messages on a byte stream, [`message`] is the vocabulary,
//!   [`relay`] carries requests from the socket to the bar and replies back,
//!   [`server`] steers one connection after another and [`bar`] answers the
//!   requests;
//! - the compositor's event stream: [`event`] is the vocabulary and its parser,
//!   [`listener`] the registry of subscribers and the dispatch;
//! - what the widgets of the bar show: [`window`], [`workspace`],
//!   [`datetime`], [`overlay`], [`notification`], [`css`], and [`astal`] for the
//!   front end built on that toolkit;
//! - the words of the widget description language, in [`widget`];
//! - and the pieces they share: [`text`], [`command`], [`cli`].

pub mod astal;
pub mod bar;
pub mod cli;
pub mod command;
pub mod css;
pub mod datetime;
pub mod event;
pub mod frame;
pub mod listener;
pub mod message;
pub mod notification;
pub mod overlay;
pub mod relay;
pub mod server;
pub mod text;
pub mod widget;
pub mod window;
pub mod workspace;
