//! Verified core of the Gilvave chat client: the rules that decide what the
//! interface shows and what it sends, separated from rendering and I/O.

pub mod text;
pub mod ids;
pub mod calendar;
pub mod messages;
pub mod chat;
pub mod validation;
pub mod navigation;
pub mod styling;
pub mod servers;
pub mod channels;
pub mod profile;
pub mod home;
pub mod api;
pub mod gateway;
