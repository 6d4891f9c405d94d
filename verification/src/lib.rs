//! A cue-list editor core: an ordered collection of cue records, each
//! identified by a two-level, partially-optional numeric key.
//!
//! [`cue::CueNumber`] is the ordering key: an optional primary number and an
//! optional secondary number, totally ordered. An unset primary sorts after
//! any set primary; among equal set primaries the base cue (no secondary
//! number) sorts first and its secondary-numbered variants follow in
//! numeric order; a fully unset key sorts last. [`list::CueList`] is the reorderable
//! collection: positional order is maintained independently of key order, so
//! an operator can renumber a cue without reshuffling the list, and reorder
//! cues without touching their numbers.

pub mod cue;
pub mod list;
