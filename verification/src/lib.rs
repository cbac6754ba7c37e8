//! A render-cache invalidation engine for a small tree of view components.
//!
//! A single [`appdata::AppData`] record is the source of truth for three view
//! components (header, content, footer). Each component keeps a memoized
//! snapshot of the two fields it displays; the root owns the shared record,
//! reconciles every snapshot after each interaction, and invalidates exactly
//! the render caches whose snapshots drifted, so that the next paint reuses
//! every node whose inputs did not change.

pub mod appdata;
pub mod cached;
pub mod contentrenderingcomponent;
pub mod decimal;
pub mod footerrenderingcomponent;
pub mod headerrenderingcomponent;
pub mod renderfrontier;
pub mod rootrenderingcomponent;
pub mod viewnode;
