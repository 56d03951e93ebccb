//! The application state the UI collaborator drives: the pending file
//! list, the optional watermark path, the message log, and the mode the
//! next picked file is interpreted under.
use vstd::prelude::*;

use crate::paths::{admits_source, admits_watermark, source_admitted, watermark_admitted};

verus! {

/// What the next picked file, or the whole application, is currently for.
/// Replaces the raw mode strings of older revisions with an explicit
/// enumeration.
#[derive(Clone, Copy, Debug, PartialEq, Eq, Structural)]
pub enum Mode {
    /// Nothing is pending.
    Idle,
    /// Picked files are source images joining the pending list.
    AwaitingSourceFiles,
    /// The next picked file is the watermark.
    AwaitingWatermark,
    /// A batch conversion is running.
    Converting,
    /// The last batch conversion has finished.
    Done,
}

/// State of one application session: what was picked and what happened.
#[derive(Clone)]
pub struct AppState {
    /// Window title.
    pub title: String,
    /// Pending source paths, in the order they were admitted.
    pub files: Vec<String>,
    /// Path of the watermark image; empty when none was picked.
    pub watermark: String,
    /// Status lines reported so far, in completion order.
    pub messages: Vec<String>,
    /// Free-form status text.
    pub status: String,
    /// What the next picked file is for.
    pub mode: Mode,
}

impl AppState {
    /// A fresh session: nothing picked, nothing reported, idle.
    pub fn new() -> (s: AppState)
        ensures
            s.title@.len() == 0,
            s.files@.len() == 0,
            s.watermark@.len() == 0,
            s.messages@.len() == 0,
            s.status@.len() == 0,
            s.mode == Mode::Idle,
    {
        AppState {
            title: String::new(),
            files: Vec::new(),
            watermark: String::new(),
            messages: Vec::new(),
            status: String::new(),
            mode: Mode::Idle,
        }
    }

    /// Admit one picked path into the pending list: it joins the end of
    /// the list exactly when its lowercased extension is an admitted
    /// raster format, and everything else is left as it stands.
    pub fn add_file(&mut self, path: &str)
        ensures
            admits_source(path@) ==> final(self).files.deep_view() == old(
                self,
            ).files.deep_view().push(path@),
            !admits_source(path@) ==> final(self).files@ == old(self).files@,
            final(self).title == old(self).title,
            final(self).watermark == old(self).watermark,
            final(self).messages@ == old(self).messages@,
            final(self).status == old(self).status,
            final(self).mode == old(self).mode,
    {
        if source_admitted(path) {
            self.files.push(path.to_owned());
            proof {
                assert(self.files.deep_view() =~= old(self).files.deep_view().push(path@));
            }
        }
    }

    /// Accept one picked path as the watermark: it replaces the stored
    /// watermark path exactly when its extension is exactly `png`, and
    /// everything else is left as it stands.
    pub fn set_watermark(&mut self, path: &str)
        ensures
            admits_watermark(path@) ==> final(self).watermark@ == path@,
            !admits_watermark(path@) ==> final(self).watermark == old(self).watermark,
            final(self).title == old(self).title,
            final(self).files@ == old(self).files@,
            final(self).messages@ == old(self).messages@,
            final(self).status == old(self).status,
            final(self).mode == old(self).mode,
    {
        if watermark_admitted(path) {
            self.watermark = path.to_owned();
        }
    }

    /// Whether a watermark path was picked: the stored path is not empty.
    pub fn has_watermark(&self) -> (r: bool)
        ensures
            r == (self.watermark@.len() != 0),
    {
        !self.watermark.as_str().is_empty()
    }

    /// Replace the free-form status text.
    pub fn set_status(&mut self, status: &str)
        ensures
            final(self).status@ == status@,
            final(self).title == old(self).title,
            final(self).files@ == old(self).files@,
            final(self).watermark == old(self).watermark,
            final(self).messages@ == old(self).messages@,
            final(self).mode == old(self).mode,
    {
        self.status = status.to_owned();
    }

    /// Append one status line to the message log.
    pub fn add_message(&mut self, msg: String)
        ensures
            final(self).messages@ == old(self).messages@.push(msg),
            final(self).title == old(self).title,
            final(self).files@ == old(self).files@,
            final(self).watermark == old(self).watermark,
            final(self).status == old(self).status,
            final(self).mode == old(self).mode,
    {
        self.messages.push(msg);
    }

    /// Remove the first pending entry equal to `file`; the file must be
    /// pending. A file leaves the list this way whether its conversion
    /// succeeded or failed.
    pub fn remove_file(&mut self, file: String)
        requires
            contains_file(old(self).files.deep_view(), file@),
        ensures
            final(self).files.deep_view() == old(self).files.deep_view().remove(
                first_match(old(self).files.deep_view(), file@),
            ),
            final(self).title == old(self).title,
            final(self).watermark == old(self).watermark,
            final(self).messages@ == old(self).messages@,
            final(self).status == old(self).status,
            final(self).mode == old(self).mode,
    {
        let i = index_of_file(&self.files, &file);
        self.files.remove(i);
        proof {
            assert(self.files.deep_view() =~= old(self).files.deep_view().remove(
                first_match(old(self).files.deep_view(), file@),
            ));
        }
    }

    /// Snapshot the pending list into one request per file, in list
    /// order, each carrying the watermark path current right now.
    pub fn snapshot_requests(&self) -> (reqs: Vec<SourceRequest>)
        ensures
            reqs@.len() == self.files@.len(),
            forall|i: int|
                0 <= i < reqs@.len() ==> reqs@[i].path@ == self.files.deep_view()[i]
                    && reqs@[i].watermark_path@ == self.watermark@,
    {
        let n = self.files.len();
        let mut reqs: Vec<SourceRequest> = Vec::new();
        let mut i: usize = 0;
        while i < n
            invariant
                i <= n,
                n == self.files@.len(),
                reqs@.len() == i,
                forall|j: int|
                    0 <= j < i ==> reqs@[j].path@ == self.files.deep_view()[j]
                        && reqs@[j].watermark_path@ == self.watermark@,
            decreases n - i,
        {
            reqs.push(
                SourceRequest {
                    path: self.files[i].clone(),
                    watermark_path: self.watermark.clone(),
                },
            );
            i = i + 1;
        }
        reqs
    }

    /// The change notification the UI layer polls: two states are the
    /// same when the title matches and the file and message lists have
    /// matching lengths and pairwise equal files.
    pub fn same(&self, other: &AppState) -> (r: bool)
        ensures
            r == (self.title@ == other.title@ && self.files@.len() == other.files@.len()
                && self.messages@.len() == other.messages@.len() && self.files.deep_view()
                =~= other.files.deep_view()),
    {
        if !self.title.eq(&other.title) {
            return false;
        }
        if self.files.len() != other.files.len() {
            return false;
        }
        if self.messages.len() != other.messages.len() {
            return false;
        }
        let n = self.files.len();
        let mut i: usize = 0;
        while i < n
            invariant
                i <= n,
                n == self.files@.len(),
                n == other.files@.len(),
                forall|j: int| 0 <= j < i ==> self.files.deep_view()[j] == other.files.deep_view()[j],
            decreases n - i,
        {
            if !self.files[i].eq(&other.files[i]) {
                proof {
                    assert(self.files.deep_view()[i as int] != other.files.deep_view()[i as int]);
                }
                return false;
            }
            i = i + 1;
        }
        true
    }
}

/// One queued conversion, snapshot from the state when a convert action
/// fires: a source path and the watermark path current at that moment. An
/// empty watermark path means none was picked. A request is consumed by
/// one conversion and discarded afterwards.
pub struct SourceRequest {
    /// Path of the source image.
    pub path: String,
    /// Path of the watermark image; empty when none was picked.
    pub watermark_path: String,
}

/// Whether some pending entry equals the target path.
pub open spec fn contains_file(files: Seq<Seq<char>>, target: Seq<char>) -> bool {
    exists|i: int| 0 <= i < files.len() && files[i] == target
}

/// Index of the first pending entry equal to the target path.
pub open spec fn first_match(files: Seq<Seq<char>>, target: Seq<char>) -> int
    decreases files.len(),
{
    if files.len() == 0 {
        0
    } else if files[0] == target {
        0
    } else {
        1 + first_match(files.drop_first(), target)
    }
}

/// `first_match` is pinned down by its two defining properties: the entry
/// at the index matches, and no entry before it does.
proof fn lemma_first_match(files: Seq<Seq<char>>, target: Seq<char>, i: int)
    requires
        0 <= i < files.len(),
        files[i] == target,
        forall|j: int| 0 <= j < i ==> files[j] != target,
    ensures
        first_match(files, target) == i,
    decreases i,
{
    if files[0] == target {
        assert(i == 0);
    } else {
        assert(i >= 1);
        assert(forall|j: int| 0 <= j < i - 1 ==> files.drop_first()[j] != target);
        lemma_first_match(files.drop_first(), target, i - 1);
    }
}

/// Find the first pending entry equal to the target path; the target must
/// be pending.
fn index_of_file(files: &Vec<String>, target: &String) -> (i: usize)
    requires
        contains_file(files.deep_view(), target@),
    ensures
        i < files@.len(),
        i as int == first_match(files.deep_view(), target@),
{
    let n = files.len();
    let mut i: usize = 0;
    while i < n
        invariant
            i <= n,
            n == files@.len(),
            contains_file(files.deep_view(), target@),
            forall|j: int| 0 <= j < i ==> files.deep_view()[j] != target@,
        decreases n - i,
    {
        if files[i].eq(target) {
            proof {
                lemma_first_match(files.deep_view(), target@, i as int);
            }
            return i;
        }
        i = i + 1;
    }
    proof {
        let k = choose|k: int|
            0 <= k < files.deep_view().len() && files.deep_view()[k] == target@;
        assert(false);
    }
    0
}

} // verus!
