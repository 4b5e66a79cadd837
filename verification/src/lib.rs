//! Seasonal anime schedules: the domain model, the Next.js hydration and
//! Flight parser, the YourAnimes page decoder, and the schedule state that
//! the desktop and FFI front ends build on.

pub mod weekday;
pub mod minute;
pub mod season;
pub mod schedule;
pub mod anime_time;
pub mod anime;
pub mod zone;
pub mod render;
pub mod app_state;
pub mod source;
pub mod ffi;
pub mod json;
pub mod text;
pub mod html;
pub mod nextjs;
pub mod json_decode;
pub mod youranimes;
