use vstd::prelude::*;
use vstd::string::StringExecFns;
use crate::game::Game;
use crate::layout::{extracted_dir, extracted_dir_of};
use crate::managed::ModView;
use crate::mods::{mods_get_index, mods_get_index_mut, mods_len, Entries};
use crate::strings::strings_view;

verus! {

/// One archive to expand: the mod at `index` of the deployment order, its
/// archive and the directory to expand it into.
#[derive(Debug, Clone, PartialEq, Eq)]
pub struct Extraction {
    pub index: usize,
    pub name: String,
    pub archive: String,
    pub target: String,
}

/// The mathematical value of an [`Extraction`].
pub struct ExtractionView {
    pub index: int,
    pub name: Seq<char>,
    pub archive: Seq<char>,
    pub target: Seq<char>,
}

impl View for Extraction {
    type V = ExtractionView;

    open spec fn view(&self) -> ExtractionView {
        ExtractionView {
            index: self.index as int,
            name: self.name@,
            archive: self.archive@,
            target: self.target@,
        }
    }
}

/// The values of a list of extractions, in order.
pub open spec fn extractions_view(jobs: Seq<Extraction>) -> Seq<ExtractionView> {
    Seq::new(jobs.len(), |i: int| jobs[i]@)
}

/// Whether a mod is waiting to be extracted: it is enabled and has no
/// extracted directory yet.
pub open spec fn awaits_extraction(m: ModView) -> bool {
    m.enabled && m.extracted.is_none()
}

/// The extractions that are due for a game: one for each mod that waits, in
/// deployment order, into `<library>/<game>/extracted/<mod>`.
pub open spec fn pending_extractions(
    mods: Entries,
    library: Seq<char>,
    game: Seq<char>,
) -> Seq<ExtractionView>
    decreases mods.len(),
{
    if mods.len() == 0 {
        Seq::empty()
    } else {
        let (name, m) = mods.last();
        let earlier = pending_extractions(mods.drop_last(), library, game);
        if awaits_extraction(m) {
            earlier.push(
                ExtractionView {
                    index: mods.len() - 1,
                    name,
                    archive: m.archive,
                    target: extracted_dir_of(library, game, name),
                },
            )
        } else {
            earlier
        }
    }
}

/// The mods after the extraction of the mod at `index` into `target` has
/// succeeded: that mod has `target` as its extracted directory, if it was
/// waiting for one. An extracted directory is set once and then kept.
pub open spec fn after_extraction(
    mods: Entries,
    index: int,
    target: Seq<char>,
) -> Entries {
    if 0 <= index < mods.len() && awaits_extraction(mods[index].1) {
        mods.update(index, (mods[index].0, ModView { extracted: Some(target), ..mods[index].1 }))
    } else {
        mods
    }
}

/// An extracted directory is set once: a second record for the same mod
/// changes nothing, and the mod no longer waits.
pub proof fn extraction_is_recorded_once(
    mods: Entries,
    index: int,
    target: Seq<char>,
    again: Seq<char>,
)
    requires
        0 <= index < mods.len(),
    ensures
        !awaits_extraction(after_extraction(mods, index, target)[index].1),
        after_extraction(after_extraction(mods, index, target), index, again) == after_extraction(
            mods,
            index,
            target,
        ),
{
}

impl Extraction {
    /// The command that expands the archive: the program `7z`, then `x`, the
    /// archive, and `-o` with the target directory right behind it.
    pub fn command(&self) -> (words: Vec<String>)
        ensures
            strings_view(words@) == seq!["7z"@, "x"@, self.archive@, "-o"@ + self.target@],
    {
        let mut words: Vec<String> = Vec::new();
        words.push(String::from_str("7z"));
        words.push(String::from_str("x"));
        words.push(self.archive.clone());
        let mut out = String::from_str("-o");
        out.append(self.target.as_str());
        words.push(out);
        assert(strings_view(words@) =~= seq!["7z"@, "x"@, self.archive@, "-o"@ + self.target@]);
        words
    }
}

impl Game {
    /// The archives to expand before a deploy, see [`pending_extractions`].
    /// `library` is the directory below which every game has its own.
    pub fn extract(&self, library: &str) -> (jobs: Vec<Extraction>)
        ensures
            extractions_view(jobs@) == pending_extractions(self.mods(), library@, self.name@),
    {
        let mut jobs: Vec<Extraction> = Vec::new();
        let n: usize = mods_len(&self.config.mods);
        let mut i: usize = 0;
        assert(self.mods().take(0) =~= Seq::empty());
        assert(extractions_view(jobs@) =~= Seq::empty());
        while i < n
            invariant
                i <= n,
                n == self.mods().len(),
                extractions_view(jobs@) == pending_extractions(
                    self.mods().take(i as int),
                    library@,
                    self.name@,
                ),
            decreases n - i,
        {
            let ghost upto = self.mods().take(i + 1);
            assert(upto.drop_last() =~= self.mods().take(i as int));
            assert(upto.last() == self.mods()[i as int]);
            match mods_get_index(&self.config.mods, i) {
                Some((name, mm)) => {
                    if mm.enabled && mm.extracted.is_none() {
                        let ghost earlier = extractions_view(jobs@);
                        let job = Extraction {
                            index: i,
                            name: name.clone(),
                            archive: mm.archive.clone(),
                            target: extracted_dir(library, self.name.as_str(), name.as_str()),
                        };
                        jobs.push(job);
                        assert(extractions_view(jobs@) =~= earlier.push(job@));
                    }
                },
                None => {},
            }
            i = i + 1;
        }
        assert(self.mods().take(i as int) =~= self.mods());
        jobs
    }

    /// Records that the archive of the mod at `index` was expanded into
    /// `target`, see [`after_extraction`]. Says whether the mod was waiting
    /// for that; if it was not, nothing changes.
    pub fn record_extraction(&mut self, index: usize, target: String) -> (recorded: bool)
        ensures
            final(self).mods() == after_extraction(old(self).mods(), index as int, target@),
            recorded == (index < old(self).mods().len() && awaits_extraction(
                old(self).mods()[index as int].1,
            )),
            final(self).same_but_mods(old(self)),
            old(self).wf() ==> final(self).wf(),
    {
        match mods_get_index_mut(&mut self.config.mods, index) {
            Some((_, mm)) => {
                if mm.enabled && mm.extracted.is_none() {
                    mm.extracted = Some(target);
                    true
                } else {
                    false
                }
            },
            None => false,
        }
    }
}

} // verus!
