use crate::status::Track;
use vstd::prelude::*;

verus! {

/// One of the lists that a library scan fills.
#[derive(Clone, Copy)]
pub enum CatalogKind {
    Songs,
    Albums,
    Artists,
}

/// The library as last scanned.  A list that is still empty is filled by
/// scanning before it is handed out.
pub struct Catalog {
    pub songs: Vec<Track>,
    pub albums: Vec<Track>,
    pub artists: Vec<Track>,
}

impl Catalog {
    pub open spec fn list(&self, kind: CatalogKind) -> Seq<Track> {
        match kind {
            CatalogKind::Songs => self.songs@,
            CatalogKind::Albums => self.albums@,
            CatalogKind::Artists => self.artists@,
        }
    }

    /// A catalog that has not been scanned.
    pub fn new() -> (r: Catalog)
        ensures
            r.songs@.len() == 0,
            r.albums@.len() == 0,
            r.artists@.len() == 0,
    {
        Catalog { songs: Vec::new(), albums: Vec::new(), artists: Vec::new() }
    }

    /// Whether the list of `kind` must be scanned before it is handed out.
    pub fn needs_scan(&self, kind: CatalogKind) -> (r: bool)
        ensures
            r == (self.list(kind).len() == 0),
    {
        match kind {
            CatalogKind::Songs => self.songs.len() == 0,
            CatalogKind::Albums => self.albums.len() == 0,
            CatalogKind::Artists => self.artists.len() == 0,
        }
    }
}

} // verus!
