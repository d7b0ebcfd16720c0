//! Core logic of a bot that lets authorized chats subscribe to searches on
//! second-hand marketplaces and tells them of new items.
//!
//! The library decides and computes; it does no input or output. Queries are
//! brought to a canonical form and fingerprinted in `marketplace::search`.
//! Commands travel in deep links, encoded in `telegram::commands`. Messages
//! are rendered in `telegram::render`. The two reactors are step functions:
//! `telegram::bot` handles a chat message and `marketplace::search_bot` a
//! tick of the crawl. Each says what is to be asked of the store, the
//! marketplaces or the chat platform, takes what came back, and says what is
//! to be asked next. `telegram::retry` decides when a call of the chat
//! platform is made again, and `db` how the cursor walks the subscriptions.

pub mod db;
pub mod marketplace;
pub mod telegram;
pub mod text;
