//! The chapter-by-chapter assembly: which step comes next, the running page
//! count that places each bookmark, and the ordered list of chapter PDFs.
//!
//! The pipeline decides and keeps the books; its caller performs each step
//! (a fetch, the downloads, a tool run) and reports how it ended.

use vstd::prelude::*;
use vstd::string::*;
use crate::download::{
    all_succeeded, chapter_result, download_paths, download_tasks, failure_views, failures_of,
    first_bad_address, is_first_bad, all_parse, paths_match, tasks_match, DownloadFailure,
    DownloadReport, DownloadTask,
};
use crate::ledger::{authors_entry, render_all, texts, title_entry, TOCCreator, TocEntryView};
use crate::naming::DownloadPath;
use crate::tools::{tool_result, ToolFailure};

verus! {

/// The pause after each chapter, in seconds: a courtesy to the source.
pub const CHAPTER_PAUSE_SECS: u64 = 1;

/// A chapter as the source lists it: its identifier and display title.
#[derive(Debug)]
pub struct Chapter {
    pub id: i64,
    pub title: String,
}

/// Where the assembly stands.
#[derive(Clone, Copy, Debug, PartialEq, Eq, Structural)]
pub enum Stage {
    FetchingImages,
    Downloading,
    ConvertingChapter,
    Merging,
    WritingBookmarks,
    Stamping,
    Done,
    Failed,
}

/// Why the assembly stopped, or why a report was not taken.
#[derive(Debug)]
pub enum PipelineError {
    /// The report does not belong to the stage the assembly is in.
    OutOfTurn,
    /// The image list of a chapter could not be fetched.
    FetchFailed(String),
    /// The image list of a chapter holds this address, which is no URL.
    BadAddress(String),
    /// The page count no longer fits a bookmark's page number.
    TooManyPages,
    /// Some pages of a chapter could not be downloaded.
    DownloadFailed(Vec<DownloadFailure>),
    /// A tool ended with a failure status.
    ToolFailed(ToolFailure),
    /// The bookmark text could not be written.
    WriteFailed(String),
}

/// What the image-to-PDF tool is to do for one chapter: the page files in page
/// order, and the name of the chapter's PDF.
#[derive(Debug)]
pub struct ConvertJob {
    pub images: Vec<DownloadPath>,
    pub output_name: String,
}

/// The state of an assembly as mathematical values.
pub struct PipelineView {
    pub stage: Stage,
    pub title: Seq<char>,
    pub authors: Seq<Seq<char>>,
    /// Identifier and title of each chapter, in processing order.
    pub chapters: Seq<(i64, Seq<char>)>,
    /// Page count of each chapter whose image list has arrived.
    pub lengths: Seq<nat>,
    /// The page on which the next chapter starts.
    pub page: int,
    pub toc: Seq<TocEntryView>,
    /// Page files of the chapter that is being downloaded.
    pub pending: Seq<DownloadPath>,
    /// Names of the chapter PDFs made so far, in the order they were made.
    pub pdfs: Seq<Seq<char>>,
}

/// Identifier and title of each chapter.
pub open spec fn chapter_views(chapters: Seq<Chapter>) -> Seq<(i64, Seq<char>)> {
    chapters.map_values(|c: Chapter| (c.id, c.title@))
}

/// The chapters to process: those of the first section, last listed first.
pub open spec fn processing_order(sections: Seq<Vec<Chapter>>) -> Seq<(i64, Seq<char>)> {
    if sections.len() == 0 {
        Seq::empty()
    } else {
        chapter_views(sections[0]@).reverse()
    }
}

/// The page on which chapter `k` starts: one more than the pages of the
/// chapters before it.
pub open spec fn first_page(lengths: Seq<nat>, k: int) -> int
    decreases k,
{
    if k <= 0 {
        1
    } else {
        first_page(lengths, k - 1) + lengths[k - 1]
    }
}

/// The name of a chapter's PDF.
pub open spec fn pdf_name(title: Seq<char>, chapter_title: Seq<char>) -> Seq<char> {
    title + "-"@ + chapter_title + ".pdf"@
}

/// The bookmark of chapter `i`: its title, at the top level, on the chapter's
/// first page.
pub open spec fn bookmark_at(chapters: Seq<(i64, Seq<char>)>, lengths: Seq<nat>, i: int)
    -> TocEntryView {
    TocEntryView::Bookmark { title: chapters[i].1, level: 1, page_number: first_page(lengths, i) }
}

/// The bookmarks of the chapters whose image lists have arrived, in
/// processing order.
pub open spec fn bookmarks(chapters: Seq<(i64, Seq<char>)>, lengths: Seq<nat>) -> Seq<
    TocEntryView,
> {
    Seq::new(lengths.len(), |i: int| bookmark_at(chapters, lengths, i))
}

/// The names of the PDFs of the first `n` chapters, in processing order.
pub open spec fn pdf_names(title: Seq<char>, chapters: Seq<(i64, Seq<char>)>, n: nat) -> Seq<
    Seq<char>,
> {
    Seq::new(n, |i: int| pdf_name(title, chapters[i].1))
}

/// The stage with which an assembly of `chapters` chapters starts.
pub open spec fn first_stage(chapters: nat) -> Stage {
    if chapters > 0 {
        Stage::FetchingImages
    } else {
        Stage::Merging
    }
}

/// The stage that follows a finished step of a tool.
pub open spec fn stage_after_tool(v: PipelineView) -> Stage {
    match v.stage {
        Stage::ConvertingChapter => if v.lengths.len() < v.chapters.len() {
            Stage::FetchingImages
        } else {
            Stage::Merging
        },
        Stage::Merging => Stage::WritingBookmarks,
        _ => Stage::Done,
    }
}

impl PipelineView {
    /// The chapter that is being worked on.
    pub open spec fn current(self) -> int {
        self.pdfs.len() as int
    }

    /// The bookmark of chapter `i`: its title, at the top level, on the
    /// chapter's first page.
    pub open spec fn bookmark(self, i: int) -> TocEntryView {
        bookmark_at(self.chapters, self.lengths, i)
    }

    /// The stage is one in which a tool's end is awaited.
    pub open spec fn awaits_tool(self) -> bool {
        self.stage == Stage::ConvertingChapter || self.stage == Stage::Merging || self.stage
            == Stage::Stamping
    }

    /// Every chapter has been converted.
    pub open spec fn assembled(self) -> bool {
        self.stage == Stage::Merging || self.stage == Stage::WritingBookmarks || self.stage
            == Stage::Stamping || self.stage == Stage::Done
    }

    /// The state after the current chapter's image list arrived with `count`
    /// images, whose files are `pending`; `addresses_ok` says whether every
    /// address in it is a URL.
    pub open spec fn after_images(
        self,
        count: nat,
        pending: Seq<DownloadPath>,
        addresses_ok: bool,
    ) -> PipelineView {
        if self.stage != Stage::FetchingImages {
            self
        } else if !addresses_ok || self.page + count > i32::MAX {
            PipelineView { stage: Stage::Failed, ..self }
        } else {
            PipelineView {
                stage: Stage::Downloading,
                lengths: self.lengths.push(count),
                page: self.page + count,
                toc: self.toc.push(
                    TocEntryView::Bookmark {
                        title: self.chapters[self.current()].1,
                        level: 1,
                        page_number: self.page,
                    },
                ),
                pending,
                ..self
            }
        }
    }

    /// The state after the current chapter's image list could not be fetched.
    pub open spec fn after_fetch_failure(self) -> PipelineView {
        if self.stage != Stage::FetchingImages {
            self
        } else {
            PipelineView { stage: Stage::Failed, ..self }
        }
    }

    /// The state after the current chapter's downloads ended, all of them well
    /// or not.
    pub open spec fn after_downloads(self, succeeded: bool) -> PipelineView {
        if self.stage != Stage::Downloading {
            self
        } else if succeeded {
            PipelineView { stage: Stage::ConvertingChapter, pending: Seq::empty(), ..self }
        } else {
            PipelineView { stage: Stage::Failed, pending: Seq::empty(), ..self }
        }
    }

    /// The state after the awaited tool ended, well or not.
    pub open spec fn after_tool(self, success: bool) -> PipelineView {
        if !self.awaits_tool() {
            self
        } else if !success {
            PipelineView { stage: Stage::Failed, ..self }
        } else {
            PipelineView {
                stage: stage_after_tool(self),
                pdfs: if self.stage == Stage::ConvertingChapter {
                    self.pdfs.push(pdf_name(self.title, self.chapters[self.current()].1))
                } else {
                    self.pdfs
                },
                ..self
            }
        }
    }

    /// The state after the bookmark text was written, or could not be.
    pub open spec fn after_write(self, written: bool) -> PipelineView {
        if self.stage != Stage::WritingBookmarks {
            self
        } else if written {
            PipelineView { stage: Stage::Stamping, ..self }
        } else {
            PipelineView { stage: Stage::Failed, ..self }
        }
    }

    /// What holds of every state that an assembly reaches.
    pub open spec fn wf(self) -> bool {
        &&& self.pdfs.len() <= self.lengths.len() <= self.chapters.len()
        &&& self.page == first_page(self.lengths, self.lengths.len() as int)
        &&& self.page <= i32::MAX
        &&& self.toc == seq![title_entry(self.title), authors_entry(self.authors)] + bookmarks(
            self.chapters,
            self.lengths,
        )
        &&& self.pdfs == pdf_names(self.title, self.chapters, self.pdfs.len())
        &&& self.stage == Stage::FetchingImages ==> self.pdfs.len() == self.lengths.len()
            < self.chapters.len()
        &&& self.stage == Stage::Downloading || self.stage == Stage::ConvertingChapter
            ==> self.lengths.len() == self.pdfs.len() + 1
        &&& self.stage == Stage::Downloading ==> self.pending.len() == self.lengths.last()
        &&& self.assembled() ==> self.pdfs.len() == self.chapters.len()
    }
}

/// A chapter never starts before page 1, nor before an earlier chapter.
pub proof fn lemma_first_page_monotone(lengths: Seq<nat>, i: int, j: int)
    requires
        i <= j,
    ensures
        1 <= first_page(lengths, i) <= first_page(lengths, j),
        i <= 0 ==> first_page(lengths, i) == 1,
    decreases j - i, j,
{
    if i < j {
        if j <= 0 {
        } else {
            lemma_first_page_monotone(lengths, i, j - 1);
        }
    } else if i > 0 {
        lemma_first_page_monotone(lengths, i - 1, i - 1);
    }
}

/// The start of a chapter depends only on the chapters before it.
proof fn lemma_first_page_push(lengths: Seq<nat>, more: nat, k: int)
    requires
        0 <= k <= lengths.len(),
    ensures
        first_page(lengths.push(more), k) == first_page(lengths, k),
    decreases k,
{
    if k > 0 {
        lemma_first_page_push(lengths, more, k - 1);
    }
}

/// Once every chapter is converted, the ledger holds the two metadata entries
/// and then one bookmark for each chapter, in processing order; the first
/// bookmark points to page 1 and no bookmark points before an earlier one.
pub proof fn lemma_bookmarks_cover_chapters(v: PipelineView)
    requires
        v.wf(),
        v.assembled(),
    ensures
        v.toc.len() == 2 + v.chapters.len(),
        v.toc[0] == title_entry(v.title),
        v.toc[1] == authors_entry(v.authors),
        forall|i: int| 0 <= i < v.chapters.len() ==> v.toc[2 + i] == #[trigger] v.bookmark(i),
        v.chapters.len() > 0 ==> first_page(v.lengths, 0) == 1,
        forall|i: int, j: int|
            0 <= i <= j < v.chapters.len() ==> 1 <= #[trigger] first_page(v.lengths, i)
                <= #[trigger] first_page(v.lengths, j),
{
    assert forall|i: int, j: int| 0 <= i <= j < v.chapters.len() implies 1 <= #[trigger] first_page(
        v.lengths,
        i,
    ) <= #[trigger] first_page(v.lengths, j) by {
        lemma_first_page_monotone(v.lengths, i, j);
    }
}

/// The chapter PDFs stand in the order in which the chapters were processed.
pub proof fn lemma_merge_order(v: PipelineView)
    requires
        v.wf(),
    ensures
        v.pdfs.len() <= v.chapters.len(),
        forall|i: int|
            0 <= i < v.pdfs.len() ==> #[trigger] v.pdfs[i] == pdf_name(v.title, v.chapters[i].1),
        v.assembled() ==> v.pdfs.len() == v.chapters.len(),
{
}

/// Every step keeps what holds of every state.
pub proof fn lemma_steps_keep_wf(
    v: PipelineView,
    count: nat,
    pending: Seq<DownloadPath>,
    went_well: bool,
)
    requires
        v.wf(),
        pending.len() == count,
    ensures
        v.after_images(count, pending, went_well).wf(),
        v.after_fetch_failure().wf(),
        v.after_downloads(went_well).wf(),
        v.after_tool(went_well).wf(),
        v.after_write(went_well).wf(),
{
    if v.stage == Stage::FetchingImages && went_well && v.page + count <= i32::MAX {
        lemma_images_keep_wf(v, count, pending);
    }
    if v.stage == Stage::ConvertingChapter && went_well {
        let w = v.after_tool(true);
        assert(w.pdfs =~= pdf_names(w.title, w.chapters, w.pdfs.len()));
    }
}

/// Taking an image list keeps the ledger and the page count in step.
proof fn lemma_images_keep_wf(v: PipelineView, count: nat, pending: Seq<DownloadPath>)
    requires
        v.wf(),
        pending.len() == count,
        v.stage == Stage::FetchingImages,
        v.page + count <= i32::MAX,
    ensures
        v.after_images(count, pending, true).wf(),
{
    let w = v.after_images(count, pending, true);
    let k = v.current();
    let header = seq![title_entry(v.title), authors_entry(v.authors)];
    let fresh = TocEntryView::Bookmark { title: v.chapters[k].1, level: 1, page_number: v.page };
    let before_marks = bookmarks(v.chapters, v.lengths);
    let after_marks = bookmarks(w.chapters, w.lengths);
    assert forall|i: int| 0 <= i < after_marks.len() implies after_marks[i] == before_marks.push(
        fresh,
    )[i] by {
        if i <= k {
            lemma_first_page_push(v.lengths, count, i);
        }
    }
    assert(after_marks =~= before_marks.push(fresh));
    assert(v.toc.push(fresh) =~= header + before_marks.push(fresh));
    lemma_first_page_push(v.lengths, count, k);
    assert(w.lengths.drop_last() =~= v.lengths);
}

/// A chapter with a failed download ends the assembly: no PDF is made of it,
/// and whatever is reported afterwards changes nothing, so that no PDF of a
/// later chapter is made and nothing is merged or stamped.
pub proof fn lemma_failed_download_stops_assembly(
    v: PipelineView,
    count: nat,
    pending: Seq<DownloadPath>,
    went_well: bool,
)
    requires
        v.stage == Stage::Downloading,
    ensures
        v.after_downloads(false).stage == Stage::Failed,
        v.after_downloads(false).pdfs == v.pdfs,
        v.after_downloads(false).after_images(count, pending, went_well) == v.after_downloads(
            false,
        ),
        v.after_downloads(false).after_fetch_failure() == v.after_downloads(false),
        v.after_downloads(false).after_downloads(went_well) == v.after_downloads(false),
        v.after_downloads(false).after_tool(went_well) == v.after_downloads(false),
        v.after_downloads(false).after_write(went_well) == v.after_downloads(false),
{
}

/// The assembly of one title.
pub struct Pipeline {
    stage: Stage,
    title: String,
    authors: Ghost<Seq<Seq<char>>>,
    chapters: Vec<Chapter>,
    lengths: Ghost<Seq<nat>>,
    page: i32,
    toc: TOCCreator,
    pending: Vec<DownloadPath>,
    pdfs: Vec<String>,
}

impl View for Pipeline {
    type V = PipelineView;

    closed spec fn view(&self) -> PipelineView {
        PipelineView {
            stage: self.stage,
            title: self.title@,
            authors: self.authors@,
            chapters: chapter_views(self.chapters@),
            lengths: self.lengths@,
            page: self.page as int,
            toc: self.toc@,
            pending: self.pending@,
            pdfs: texts(self.pdfs@),
        }
    }
}

/// The chapters of a section, last listed first.
fn reversed(section: &Vec<Chapter>) -> (chapters: Vec<Chapter>)
    ensures
        chapter_views(chapters@) == chapter_views(section@).reverse(),
{
    let mut chapters: Vec<Chapter> = Vec::new();
    let n = section.len();
    let mut i: usize = n;
    while i > 0
        invariant
            i <= n,
            n == section@.len(),
            chapters@.len() == n - i,
            forall|k: int|
                0 <= k < n - i ==> (#[trigger] chapters@[k]).id == section@[n - 1 - k].id
                    && chapters@[k].title@ == section@[n - 1 - k].title@,
        decreases i,
    {
        i = i - 1;
        chapters.push(Chapter { id: section[i].id, title: String::from_str(section[i].title.as_str()) });
    }
    assert(chapter_views(chapters@) =~= chapter_views(section@).reverse());
    chapters
}

/// The name of a chapter's PDF.
pub fn chapter_pdf_name(title: &str, chapter_title: &str) -> (name: String)
    ensures
        name@ == pdf_name(title@, chapter_title@),
{
    let mut name = String::from_str(title);
    name.append("-");
    name.append(chapter_title);
    name.append(".pdf");
    name
}

/// The name of the final PDF where none is configured: the title and `.pdf`.
pub fn default_output_name(title: &str) -> (name: String)
    ensures
        name@ == title@ + ".pdf"@,
{
    let mut name = String::from_str(title);
    name.append(".pdf");
    name
}

impl Pipeline {
    /// The assembly of a just fetched title: its metadata is in the ledger, and
    /// the chapters of its first section wait to be processed, last listed
    /// first. Further sections are left out.
    pub fn new(title: &str, authors: &Vec<String>, sections: &Vec<Vec<Chapter>>) -> (p: Self)
        ensures
            p@.wf(),
            p@ == (PipelineView {
                stage: first_stage(processing_order(sections@).len()),
                title: title@,
                authors: texts(authors@),
                chapters: processing_order(sections@),
                lengths: Seq::empty(),
                page: 1,
                toc: seq![title_entry(title@), authors_entry(texts(authors@))],
                pending: Seq::empty(),
                pdfs: Seq::empty(),
            }),
    {
        let mut toc = TOCCreator::new();
        toc.add_title(title);
        toc.add_authors(authors);
        let chapters = if sections.len() == 0 {
            Vec::new()
        } else {
            reversed(&sections[0])
        };
        let stage = if chapters.len() > 0 {
            Stage::FetchingImages
        } else {
            Stage::Merging
        };
        let p = Pipeline {
            stage,
            title: String::from_str(title),
            authors: Ghost(texts(authors@)),
            chapters,
            lengths: Ghost(Seq::empty()),
            page: 1,
            toc,
            pending: Vec::new(),
            pdfs: Vec::new(),
        };
        proof {
            assert(chapter_views(p.chapters@) =~= processing_order(sections@));
            assert(p@.toc =~= seq![title_entry(title@), authors_entry(texts(authors@))]);
            assert(p@.pdfs =~= Seq::<Seq<char>>::empty());
            assert(p@.toc =~= seq![title_entry(p@.title), authors_entry(p@.authors)] + bookmarks(
                p@.chapters,
                p@.lengths,
            ));
            assert(p@.pdfs =~= pdf_names(p@.title, p@.chapters, p@.pdfs.len()));
        }
        p
    }

    /// The stage the assembly is in.
    pub fn stage(&self) -> (stage: Stage)
        ensures
            stage == self@.stage,
    {
        self.stage
    }

    /// The page on which the next chapter starts.
    pub fn page(&self) -> (page: i32)
        ensures
            page == self@.page,
    {
        self.page
    }

    /// The ledger as it stands.
    pub fn toc(&self) -> (toc: &TOCCreator)
        ensures
            toc@ == self@.toc,
    {
        &self.toc
    }

    /// The ledger as the text that the stamping tool reads.
    pub fn bookmark_text(&self) -> (text: String)
        ensures
            text@ == render_all(self@.toc),
    {
        self.toc.serialize()
    }

    /// The names of the chapter PDFs made so far, in the order to merge them.
    pub fn chapter_pdfs(&self) -> (pdfs: &Vec<String>)
        ensures
            texts(pdfs@) == self@.pdfs,
    {
        &self.pdfs
    }

    /// The identifier of the chapter whose image list is to be fetched next,
    /// where the assembly waits for one.
    pub fn next_chapter(&self) -> (id: Option<i64>)
        requires
            self@.wf(),
        ensures
            self@.stage == Stage::FetchingImages ==> id == Some(
                self@.chapters[self@.current()].0,
            ),
            self@.stage != Stage::FetchingImages ==> id is None,
    {
        match self.stage {
            Stage::FetchingImages => Some(self.chapters[self.pdfs.len()].id),
            _ => None,
        }
    }

    /// The title of the chapter whose image list is to be fetched next, where
    /// the assembly waits for one.
    pub fn next_chapter_title(&self) -> (title: Option<String>)
        requires
            self@.wf(),
        ensures
            self@.stage == Stage::FetchingImages ==> title is Some && title->Some_0@
                == self@.chapters[self@.current()].1,
            self@.stage != Stage::FetchingImages ==> title is None,
    {
        match self.stage {
            Stage::FetchingImages => Some(
                String::from_str(self.chapters[self.pdfs.len()].title.as_str()),
            ),
            _ => None,
        }
    }

    /// The number of chapters converted so far, which is the position of the
    /// current chapter in processing order.
    pub fn chapters_done(&self) -> (done: usize)
        ensures
            done == self@.current(),
    {
        proof {
            assert(texts(self.pdfs@).len() == self.pdfs@.len());
        }
        self.pdfs.len()
    }

    /// Takes the image list of the current chapter. Where an address in it is
    /// no URL, or the page count would no longer fit, the assembly ends.
    /// Otherwise the chapter's bookmark is placed on the page reached so far,
    /// the page count then grows by the number of images, and the downloads to
    /// make are handed back in page order.
    pub fn images_fetched(&mut self, images: &Vec<String>, temp_dir: &str) -> (result: Result<
        Vec<DownloadTask>,
        PipelineError,
    >)
        requires
            old(self)@.wf(),
        ensures
            final(self)@.wf(),
            final(self)@ == old(self)@.after_images(
                images@.len(),
                final(self)@.pending,
                all_parse(images@),
            ),
            old(self)@.stage != Stage::FetchingImages ==> result is Err && result->Err_0
                is OutOfTurn,
            old(self)@.stage == Stage::FetchingImages && !all_parse(images@) ==> result is Err
                && result->Err_0 is BadAddress && exists|i: int|
                is_first_bad(images@, i) && images@[i]@ == result->Err_0->BadAddress_0@,
            old(self)@.stage == Stage::FetchingImages && all_parse(images@) && old(self)@.page
                + images@.len() > i32::MAX ==> result is Err && result->Err_0 is TooManyPages,
            old(self)@.stage == Stage::FetchingImages && all_parse(images@) && old(self)@.page
                + images@.len() <= i32::MAX ==> result is Ok && tasks_match(
                result->Ok_0@,
                images@,
            ) && paths_match(final(self)@.pending, images@, temp_dir@),
    {
        let bad_address = first_bad_address(images);
        self.take_images(images, temp_dir, bad_address)
    }

    /// Takes the image list of the current chapter, together with the first
    /// address in it that is no URL, if there is one.
    pub fn take_images(
        &mut self,
        images: &Vec<String>,
        temp_dir: &str,
        bad_address: Option<String>,
    ) -> (result: Result<Vec<DownloadTask>, PipelineError>)
        requires
            old(self)@.wf(),
        ensures
            final(self)@.wf(),
            final(self)@ == old(self)@.after_images(
                images@.len(),
                final(self)@.pending,
                bad_address is None,
            ),
            old(self)@.stage != Stage::FetchingImages ==> result is Err && result->Err_0
                is OutOfTurn,
            old(self)@.stage == Stage::FetchingImages && bad_address is Some ==> result == Err::<
                Vec<DownloadTask>,
                PipelineError,
            >(PipelineError::BadAddress(bad_address->Some_0)),
            old(self)@.stage == Stage::FetchingImages && bad_address is None && old(self)@.page
                + images@.len() > i32::MAX ==> result is Err && result->Err_0 is TooManyPages,
            old(self)@.stage == Stage::FetchingImages && bad_address is None && old(self)@.page
                + images@.len() <= i32::MAX ==> result is Ok && tasks_match(
                result->Ok_0@,
                images@,
            ) && paths_match(final(self)@.pending, images@, temp_dir@),
    {
        match self.stage {
            Stage::FetchingImages => {},
            _ => {
                return Err(PipelineError::OutOfTurn);
            },
        }
        if let Some(address) = bad_address {
            self.stage = Stage::Failed;
            return Err(PipelineError::BadAddress(address));
        }
        proof {
            lemma_first_page_monotone(self@.lengths, 0, self@.lengths.len() as int);
        }
        let count = images.len();
        if count > (i32::MAX - self.page) as usize {
            self.stage = Stage::Failed;
            return Err(PipelineError::TooManyPages);
        }
        let k = self.pdfs.len();
        self.toc.add_bookmark(self.page, self.chapters[k].title.as_str(), 1);
        self.page = self.page + count as i32;
        self.lengths = Ghost(self.lengths@.push(count as nat));
        let paths = download_paths(images, temp_dir);
        let tasks = download_tasks(images, &paths);
        self.pending = paths;
        self.stage = Stage::Downloading;
        proof {
            let before = old(self)@;
            assert(self.pdfs@.len() == before.lengths.len());
            lemma_images_keep_wf(before, count as nat, self.pending@);
            assert(self@ == before.after_images(count as nat, self.pending@, true));
        }
        Ok(tasks)
    }

    /// Takes the news that the current chapter's image list could not be
    /// fetched, after every retry: the assembly ends.
    pub fn fetch_failed(&mut self, reason: String) -> (error: PipelineError)
        requires
            old(self)@.wf(),
        ensures
            final(self)@.wf(),
            final(self)@ == old(self)@.after_fetch_failure(),
            old(self)@.stage != Stage::FetchingImages ==> error is OutOfTurn,
            old(self)@.stage == Stage::FetchingImages ==> error == PipelineError::FetchFailed(
                reason,
            ),
    {
        match self.stage {
            Stage::FetchingImages => {
                self.stage = Stage::Failed;
                PipelineError::FetchFailed(reason)
            },
            _ => PipelineError::OutOfTurn,
        }
    }

    /// Takes the reports of the current chapter's downloads. Where all
    /// succeeded, the chapter's page files go to conversion, in page order.
    /// Where any failed, the assembly ends with every failure listed, and no
    /// PDF is made of this chapter or of a later one.
    pub fn downloads_finished(&mut self, reports: &Vec<DownloadReport>) -> (result: Result<
        ConvertJob,
        PipelineError,
    >)
        requires
            old(self)@.wf(),
        ensures
            final(self)@.wf(),
            final(self)@ == old(self)@.after_downloads(all_succeeded(reports@)),
            old(self)@.stage != Stage::Downloading ==> result is Err && result->Err_0 is OutOfTurn,
            old(self)@.stage == Stage::Downloading && all_succeeded(reports@) ==> result is Ok
                && result->Ok_0.images@ == old(self)@.pending && result->Ok_0.output_name@
                == pdf_name(old(self)@.title, old(self)@.chapters[old(self)@.current()].1),
            old(self)@.stage == Stage::Downloading && !all_succeeded(reports@) ==> result is Err
                && result->Err_0 is DownloadFailed && failure_views(
                result->Err_0->DownloadFailed_0@,
            ) == failures_of(reports@),
    {
        match self.stage {
            Stage::Downloading => {},
            _ => {
                return Err(PipelineError::OutOfTurn);
            },
        }
        let mut paths: Vec<DownloadPath> = Vec::new();
        std::mem::swap(&mut self.pending, &mut paths);
        match chapter_result(paths, reports) {
            Ok(images) => {
                let k = self.pdfs.len();
                let output_name = chapter_pdf_name(
                    self.title.as_str(),
                    self.chapters[k].title.as_str(),
                );
                self.stage = Stage::ConvertingChapter;
                Ok(ConvertJob { images, output_name })
            },
            Err(failures) => {
                self.stage = Stage::Failed;
                Err(PipelineError::DownloadFailed(failures))
            },
        }
    }

    /// Takes the end of the tool that the stage waits for. After a chapter's
    /// conversion its PDF joins the list to merge, and the next chapter is
    /// fetched, or the merge begins once no chapter is left; after the merge
    /// the bookmarks are written; after the stamping the assembly is done. A
    /// failure status ends the assembly and keeps the tool's error text.
    pub fn tool_finished(&mut self, success: bool, stderr: String) -> (result: Result<
        (),
        PipelineError,
    >)
        requires
            old(self)@.wf(),
        ensures
            final(self)@.wf(),
            final(self)@ == old(self)@.after_tool(success),
            !old(self)@.awaits_tool() ==> result is Err && result->Err_0 is OutOfTurn,
            old(self)@.awaits_tool() && !success ==> result == Err::<(), PipelineError>(
                PipelineError::ToolFailed(ToolFailure { stderr }),
            ),
            old(self)@.awaits_tool() && success ==> result is Ok,
    {
        match self.stage {
            Stage::ConvertingChapter | Stage::Merging | Stage::Stamping => {},
            _ => {
                return Err(PipelineError::OutOfTurn);
            },
        }
        if let Err(failure) = tool_result(success, stderr) {
            self.stage = Stage::Failed;
            return Err(PipelineError::ToolFailed(failure));
        }
        match self.stage {
            Stage::ConvertingChapter => {
                let k = self.pdfs.len();
                let name = chapter_pdf_name(self.title.as_str(), self.chapters[k].title.as_str());
                self.pdfs.push(name);
                self.stage = if self.pdfs.len() < self.chapters.len() {
                    Stage::FetchingImages
                } else {
                    Stage::Merging
                };
                proof {
                    let before = old(self)@;
                    let after = self@;
                    assert(after.pdfs =~= before.pdfs.push(
                        pdf_name(before.title, before.chapters[k as int].1),
                    ));
                    assert(after.pdfs =~= pdf_names(
                        after.title,
                        after.chapters,
                        after.pdfs.len(),
                    ));
                }
            },
            Stage::Merging => {
                self.stage = Stage::WritingBookmarks;
            },
            _ => {
                self.stage = Stage::Done;
            },
        }
        Ok(())
    }

    /// Takes the news of how writing the bookmark text ended: the stamping
    /// follows a success, and a failure ends the assembly.
    pub fn bookmarks_written(&mut self, outcome: Result<(), String>) -> (result: Result<
        (),
        PipelineError,
    >)
        requires
            old(self)@.wf(),
        ensures
            final(self)@.wf(),
            final(self)@ == old(self)@.after_write(outcome is Ok),
            old(self)@.stage != Stage::WritingBookmarks ==> result is Err && result->Err_0
                is OutOfTurn,
            old(self)@.stage == Stage::WritingBookmarks && outcome is Ok ==> result is Ok,
            old(self)@.stage == Stage::WritingBookmarks && outcome is Err ==> result == Err::<
                (),
                PipelineError,
            >(PipelineError::WriteFailed(outcome->Err_0)),
    {
        match self.stage {
            Stage::WritingBookmarks => {},
            _ => {
                return Err(PipelineError::OutOfTurn);
            },
        }
        match outcome {
            Ok(_) => {
                self.stage = Stage::Stamping;
                Ok(())
            },
            Err(reason) => {
                self.stage = Stage::Failed;
                Err(PipelineError::WriteFailed(reason))
            },
        }
    }
}

} // verus!
