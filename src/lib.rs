//! Fetching a user's profile and its two images, and caching the images on disk.
//!
//! `fetch::Fetcher` is the state machine a front end drives; `asset` says where
//! an image is fetched from and which extension it has; `cache` names the local
//! files and resolves which variant is present; `profile` turns the remote user
//! record into the profile shown; `decimal` reads and writes ids.
pub mod asset;
pub mod cache;
pub mod decimal;
pub mod error;
pub mod fetch;
pub mod profile;
