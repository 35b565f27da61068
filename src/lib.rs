//! Client for a paginated JSON query API in the style of MediaWiki's
//! `action=query`: request builders, response navigation, item decoders
//! and the continuation-driven pagination engine.
pub mod json;
pub mod text;
pub mod error;
pub mod wiki;
pub mod response;
pub mod items;
pub mod page;
pub mod iter;
pub mod lookup;
pub mod search;
pub mod section;
