use vstd::prelude::*;

verus! {

/// One recurring program slot, identified by its pair of site ids.
/// The pair `(series_site_id, corner_site_id)` is the key used to look
/// up the series of episodes available for the slot.
pub struct Corner {
    pub title: String,
    pub corner_name: String,
    pub series_site_id: String,
    pub corner_site_id: String,
}

/// One archived broadcast instance. `id` and `program_title` determine
/// the output filename; `stream_url` is what the download step needs.
pub struct Episode {
    pub id: u32,
    pub program_title: String,
    pub onair_date: String,
    pub stream_url: String,
    pub program_sub_title: String,
}

/// The episodes available on demand for one corner, in the order the
/// server returned them.
pub struct Series {
    pub id: u32,
    pub title: String,
    pub episodes: Vec<Episode>,
}

/// The top-level shape of the new-arrivals catalog.
pub struct NewInfo {
    pub corners: Vec<Corner>,
}

/// Every failure is fatal: each variant names the URL or path involved,
/// so the caller can report it and stop.
#[derive(Debug)]
pub enum Error {
    /// The connection to `url` could not be established.
    Network { url: String },
    /// The body fetched from `url` could not be read as text.
    Response { url: String },
    /// The text read from `source` (a path or URL) did not hold the
    /// expected JSON shape.
    Decode { source: String },
    /// A file or directory at `path` could not be read, written or created.
    Io { path: String },
    /// The external media pipeline tool could not be started.
    ExecutorLaunch,
}

} // verus!
