//! Verified core of a caching viewer for live bike-race tracking events: merging
//! paginated GPS tracks, reading upstream timestamps, naming cache files, building
//! cached bodies and their ETags, choosing how to answer a request, and rendering
//! the CSV exports and the Prometheus metrics page.
pub mod clock;
pub mod csv;
pub mod escape;
pub mod isotime;
pub mod metric_headers;
pub mod overtakes;
pub mod paths;
pub mod prometheus;
pub mod serve;
pub mod slug;
pub mod snapshot;
pub mod text;
pub mod tracks;
pub mod upstream;
