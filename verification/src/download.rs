use vstd::prelude::*;
use vstd::string::StringExecFns;
use crate::game::Game;
use crate::managed::{ManagedMod, ModView};
use crate::mods::{inserted, inserted_keeps_distinct, mods_insert};
use crate::paths::{file_name, file_name_of, file_stem, join, joined_path, stem_in};

verus! {

/// One archive to bring into a game's downloads directory: `source` is moved
/// or copied to `target`, and the mod is then known under `name`.
#[derive(Debug, Clone, PartialEq, Eq)]
pub struct Download {
    pub source: String,
    pub target: String,
    pub name: String,
    /// Whether the archive is moved; else it is copied.
    pub mv: bool,
}

/// The mathematical value of a [`Download`].
pub struct DownloadView {
    pub source: Seq<char>,
    pub target: Seq<char>,
    pub name: Seq<char>,
    pub mv: bool,
}

impl View for Download {
    type V = DownloadView;

    open spec fn view(&self) -> DownloadView {
        DownloadView { source: self.source@, target: self.target@, name: self.name@, mv: self.mv }
    }
}

/// What is to be done with a source archive: it goes to the downloads
/// directory under its own file name, and the mod is named by the stem of
/// that file name. A path without a file name is passed over.
pub open spec fn planned_download(downloads: Seq<char>, source: Seq<char>, mv: bool) -> Option<
    DownloadView,
> {
    match file_name_of(source) {
        Some(file) => Some(
            DownloadView { source, target: joined_path(downloads, file), name: stem_in(file), mv },
        ),
        None => None,
    }
}

/// The value of a download, if there is one.
pub open spec fn download_view(download: Option<Download>) -> Option<DownloadView> {
    match download {
        Some(d) => Some(d@),
        None => None,
    }
}

/// The mod that is registered for a completed download: a new mod with the
/// downloaded file as its archive.
pub open spec fn downloaded_mod(download: DownloadView) -> ModView {
    ModView { enabled: false, extracted: None, archive: download.target, parts: Seq::empty() }
}

impl Download {
    /// Plans the download of the archive at `source` into the directory
    /// `downloads`, see [`planned_download`].
    pub fn plan(downloads: &str, source: &str, mv: bool) -> (download: Option<Download>)
        ensures
            download_view(download) == planned_download(downloads@, source@, mv),
    {
        match file_name(source) {
            Some(file) => match file_stem(source) {
                Some(stem) => Some(
                    Download {
                        source: String::from_str(source),
                        target: join(downloads, file.as_str()),
                        name: stem,
                        mv,
                    },
                ),
                None => None,
            },
            None => None,
        }
    }
}

impl Game {
    /// Registers the mod of a completed download under the download's name.
    /// A mod that was known under that name keeps its place in the deployment
    /// order and is replaced by the new one; a new name goes to the end.
    pub fn add(&mut self, download: &Download)
        ensures
            final(self).mods() == inserted(
                old(self).mods(),
                download@.name,
                downloaded_mod(download@),
            ),
            final(self).same_but_mods(old(self)),
            old(self).wf() ==> final(self).wf(),
    {
        proof {
            if self.wf() {
                inserted_keeps_distinct(self.mods(), download@.name, downloaded_mod(download@));
            }
        }
        let _ = mods_insert(
            &mut self.config.mods,
            download.name.clone(),
            ManagedMod::new(download.target.clone()),
        );
    }
}

} // verus!
