//! The bookmark ledger: document metadata and chapter bookmarks, kept in the
//! order in which they were added and written out as flat text.

use vstd::prelude::*;
use vstd::string::*;
use crate::decimal::{decimal_int, render_i32};

verus! {

/// One block of the ledger.
#[derive(Debug)]
pub enum TocEntry {
    /// A document-level key and value.
    Info { key: String, value: String },
    /// A named jump target: its nesting level and the page it points to.
    Bookmark { title: String, level: i32, page_number: i32 },
}

/// What a `TocEntry` holds, as mathematical values.
pub enum TocEntryView {
    Info { key: Seq<char>, value: Seq<char> },
    Bookmark { title: Seq<char>, level: int, page_number: int },
}

impl View for TocEntry {
    type V = TocEntryView;

    open spec fn view(&self) -> TocEntryView {
        match self {
            TocEntry::Info { key, value } => TocEntryView::Info { key: key@, value: value@ },
            TocEntry::Bookmark { title, level, page_number } => TocEntryView::Bookmark {
                title: title@,
                level: *level as int,
                page_number: *page_number as int,
            },
        }
    }
}

/// The views of a sequence of strings.
pub open spec fn texts(v: Seq<String>) -> Seq<Seq<char>> {
    v.map_values(|s: String| s@)
}

/// The parts joined with a comma between neighbours.
pub open spec fn join_comma(parts: Seq<Seq<char>>) -> Seq<char>
    decreases parts.len(),
{
    if parts.len() == 0 {
        Seq::empty()
    } else if parts.len() == 1 {
        parts[0]
    } else {
        join_comma(parts.drop_last()) + seq![','] + parts.last()
    }
}

/// The text of one block: a line break, then the block's lines, each ended
/// by a line break.
pub open spec fn render_entry(e: TocEntryView) -> Seq<char> {
    match e {
        TocEntryView::Info { key, value } => "\nInfoBegin\nInfoKey: "@ + key + "\nInfoValue: "@
            + value + "\n"@,
        TocEntryView::Bookmark { title, level, page_number } => "\nBookmarkBegin\nBookmarkTitle: "@
            + title + "\nBookmarkLevel: "@ + decimal_int(level) + "\nBookmarkPageNumber: "@
            + decimal_int(page_number) + "\n"@,
    }
}

/// The text of a run of blocks: each block's text, in order.
pub open spec fn render_all(entries: Seq<TocEntryView>) -> Seq<char>
    decreases entries.len(),
{
    if entries.len() == 0 {
        Seq::empty()
    } else {
        render_all(entries.drop_last()) + render_entry(entries.last())
    }
}

/// The metadata block that names the document.
pub open spec fn title_entry(title: Seq<char>) -> TocEntryView {
    TocEntryView::Info { key: "Title"@, value: title }
}

/// The metadata block that names the authors.
pub open spec fn authors_entry(authors: Seq<Seq<char>>) -> TocEntryView {
    TocEntryView::Info { key: "Author"@, value: join_comma(authors) }
}

/// Joins the strings with a comma between neighbours.
pub fn join_with_comma(parts: &Vec<String>) -> (joined: String)
    ensures
        joined@ == join_comma(texts(parts@)),
{
    let mut joined = String::new();
    let mut i: usize = 0;
    proof {
        reveal_strlit(",");
    }
    while i < parts.len()
        invariant
            i <= parts.len(),
            joined@ == join_comma(texts(parts@).subrange(0, i as int)),
            ","@ == seq![','],
        decreases parts.len() - i,
    {
        if i > 0 {
            joined.append(",");
        }
        joined.append(parts[i].as_str());
        proof {
            let all = texts(parts@);
            let next = all.subrange(0, i + 1);
            assert(next.drop_last() =~= all.subrange(0, i as int));
            assert(next.last() == parts@[i as int]@);
            if i == 0 {
                assert(joined@ =~= next[0]);
            }
        }
        i = i + 1;
    }
    assert(texts(parts@).subrange(0, i as int) =~= texts(parts@));
    joined
}

/// Renders one block as text.
pub fn render(entry: &TocEntry) -> (text: String)
    ensures
        text@ == render_entry(entry@),
{
    match entry {
        TocEntry::Info { key, value } => {
            let mut text = String::from_str("\nInfoBegin\nInfoKey: ");
            text.append(key.as_str());
            text.append("\nInfoValue: ");
            text.append(value.as_str());
            text.append("\n");
            text
        },
        TocEntry::Bookmark { title, level, page_number } => {
            let level_text = render_i32(*level);
            let page_text = render_i32(*page_number);
            let mut text = String::from_str("\nBookmarkBegin\nBookmarkTitle: ");
            text.append(title.as_str());
            text.append("\nBookmarkLevel: ");
            text.append(level_text.as_str());
            text.append("\nBookmarkPageNumber: ");
            text.append(page_text.as_str());
            text.append("\n");
            text
        },
    }
}

/// Metadata entries and bookmarks in the order in which they were added.
#[derive(Debug)]
pub struct TOCCreator {
    entries: Vec<TocEntry>,
}

impl View for TOCCreator {
    type V = Seq<TocEntryView>;

    closed spec fn view(&self) -> Seq<TocEntryView> {
        self.entries@.map_values(|e: TocEntry| e@)
    }
}

impl TOCCreator {
    /// An empty ledger.
    pub fn new() -> (toc: Self)
        ensures
            toc@ == Seq::<TocEntryView>::empty(),
    {
        let toc = TOCCreator { entries: Vec::new() };
        assert(toc@ =~= Seq::<TocEntryView>::empty());
        toc
    }

    /// Appends the metadata block that names the document.
    pub fn add_title(&mut self, title: &str)
        ensures
            final(self)@ == old(self)@.push(title_entry(title@)),
    {
        let key = String::from_str("Title");
        let value = String::from_str(title);
        self.add_metadata(&key, &value)
    }

    /// Appends the metadata block that names the authors, joined by commas.
    pub fn add_authors(&mut self, authors: &Vec<String>)
        ensures
            final(self)@ == old(self)@.push(authors_entry(texts(authors@))),
    {
        let key = String::from_str("Author");
        let value = join_with_comma(authors);
        self.add_metadata(&key, &value)
    }

    /// Appends a metadata block.
    pub fn add_metadata(&mut self, key: &String, val: &String)
        ensures
            final(self)@ == old(self)@.push(TocEntryView::Info { key: key@, value: val@ }),
    {
        let entry = TocEntry::Info {
            key: String::from_str(key.as_str()),
            value: String::from_str(val.as_str()),
        };
        self.entries.push(entry);
        assert(self@ =~= old(self)@.push(TocEntryView::Info { key: key@, value: val@ }));
    }

    /// Appends a bookmark block.
    pub fn add_bookmark(&mut self, page_number: i32, title: &str, level: i32)
        ensures
            final(self)@ == old(self)@.push(
                TocEntryView::Bookmark {
                    title: title@,
                    level: level as int,
                    page_number: page_number as int,
                },
            ),
    {
        let entry = TocEntry::Bookmark { title: String::from_str(title), level, page_number };
        self.entries.push(entry);
        assert(self@ =~= old(self)@.push(
            TocEntryView::Bookmark {
                title: title@,
                level: level as int,
                page_number: page_number as int,
            },
        ));
    }

    /// The blocks, in the order in which they were added.
    pub fn entries(&self) -> (entries: &Vec<TocEntry>)
        ensures
            entries@.map_values(|e: TocEntry| e@) == self@,
    {
        &self.entries
    }

    /// The ledger as text: every block, in the order in which it was added.
    pub fn serialize(&self) -> (text: String)
        ensures
            text@ == render_all(self@),
    {
        let mut text = String::new();
        let mut i: usize = 0;
        while i < self.entries.len()
            invariant
                i <= self.entries.len(),
                text@ == render_all(self@.subrange(0, i as int)),
            decreases self.entries.len() - i,
        {
            let block = render(&self.entries[i]);
            text.append(block.as_str());
            proof {
                let next = self@.subrange(0, i + 1);
                assert(next.drop_last() =~= self@.subrange(0, i as int));
                assert(next.last() == self.entries@[i as int]@);
            }
            i = i + 1;
        }
        assert(self@.subrange(0, i as int) =~= self@);
        text
    }
}

} // verus!
