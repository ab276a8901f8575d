use dmzj2pdf::download::{DownloadOutcome, DownloadReport};
use dmzj2pdf::ledger::TocEntry;
use dmzj2pdf::pipeline::{
    chapter_pdf_name, default_output_name, Chapter, Pipeline, PipelineError, Stage,
};

fn s(text: &str) -> String {
    text.to_string()
}

fn chapter(id: i64, title: &str) -> Chapter {
    Chapter { id, title: s(title) }
}

fn pages(host: &str, count: usize) -> Vec<String> {
    (0..count).map(|i| format!("http://{}/img/{}.jpg", host, i + 100)).collect()
}

fn all_ok(count: usize) -> Vec<DownloadReport> {
    (0..count)
        .rev()
        .map(|i| DownloadReport { file_name: format!("{}.jpg", i), outcome: DownloadOutcome::Succeeded })
        .collect()
}

fn bookmarks(p: &Pipeline) -> Vec<(String, i32, i32)> {
    let mut found = Vec::new();
    for entry in p.toc().entries() {
        if let TocEntry::Bookmark { title, level, page_number } = entry {
            found.push((title.clone(), *page_number, *level));
        }
    }
    found
}

fn run_chapter(p: &mut Pipeline, count: usize) {
    let tasks = p.images_fetched(&pages("h", count), "/tmp/c").expect("images taken");
    assert_eq!(tasks.len(), count);
    assert_eq!(p.stage(), Stage::Downloading);
    let job = p.downloads_finished(&all_ok(count)).expect("downloads taken");
    assert_eq!(job.images.len(), count);
    for (i, image) in job.images.iter().enumerate() {
        assert_eq!(image.directory, "/tmp/c");
        assert_eq!(image.file_name, format!("{}.jpg", i));
    }
    assert_eq!(p.stage(), Stage::ConvertingChapter);
    p.tool_finished(true, String::new()).expect("conversion taken");
}

#[test]
fn two_chapter_title_end_to_end() {
    let sections = vec![vec![chapter(2, "B"), chapter(1, "A")]];
    let mut p = Pipeline::new("Saga", &vec![s("Ann"), s("Bob")], &sections);
    assert_eq!(p.stage(), Stage::FetchingImages);
    assert_eq!(p.page(), 1);
    assert_eq!(p.next_chapter(), Some(1));
    run_chapter(&mut p, 3);
    assert_eq!(p.page(), 4);
    assert_eq!(p.stage(), Stage::FetchingImages);
    assert_eq!(p.next_chapter(), Some(2));
    run_chapter(&mut p, 2);
    assert_eq!(p.page(), 6);
    assert_eq!(p.stage(), Stage::Merging);
    assert_eq!(p.next_chapter(), None);
    assert_eq!(bookmarks(&p), vec![(s("A"), 1, 1), (s("B"), 4, 1)]);
    assert_eq!(p.chapter_pdfs(), &vec![s("Saga-A.pdf"), s("Saga-B.pdf")]);
    assert_eq!(
        p.bookmark_text(),
        "\nInfoBegin\nInfoKey: Title\nInfoValue: Saga\n\nInfoBegin\nInfoKey: Author\nInfoValue: Ann,Bob\n\nBookmarkBegin\nBookmarkTitle: A\nBookmarkLevel: 1\nBookmarkPageNumber: 1\n\nBookmarkBegin\nBookmarkTitle: B\nBookmarkLevel: 1\nBookmarkPageNumber: 4\n"
    );
    p.tool_finished(true, String::new()).expect("merge taken");
    assert_eq!(p.stage(), Stage::WritingBookmarks);
    p.bookmarks_written(Ok(())).expect("write taken");
    assert_eq!(p.stage(), Stage::Stamping);
    p.tool_finished(true, String::new()).expect("stamp taken");
    assert_eq!(p.stage(), Stage::Done);
    assert!(matches!(p.tool_finished(true, String::new()), Err(PipelineError::OutOfTurn)));
    assert_eq!(p.stage(), Stage::Done);
}

#[test]
fn metadata_comes_from_title_details() {
    let p = Pipeline::new("Saga", &vec![s("Ann")], &vec![vec![chapter(1, "A")]]);
    let entries = p.toc().entries();
    assert_eq!(entries.len(), 2);
    assert!(matches!(&entries[0], TocEntry::Info { key, value } if key == "Title" && value == "Saga"));
    assert!(matches!(&entries[1], TocEntry::Info { key, value } if key == "Author" && value == "Ann"));
}

#[test]
fn bookmarks_match_chapters_and_never_go_back() {
    let listed: Vec<Chapter> = (0..6).rev().map(|i| chapter(i, &format!("ch{}", i))).collect();
    let counts = [4usize, 0, 7, 1, 0, 3];
    let mut p = Pipeline::new("T", &Vec::new(), &vec![listed]);
    let mut expected_page = 1;
    for (i, count) in counts.iter().enumerate() {
        assert_eq!(p.next_chapter(), Some(i as i64));
        assert_eq!(p.page(), expected_page);
        run_chapter(&mut p, *count);
        expected_page += *count as i32;
        assert_eq!(p.page(), expected_page);
    }
    let marks = bookmarks(&p);
    assert_eq!(marks.len(), 6);
    assert_eq!(marks[0].1, 1);
    for pair in marks.windows(2) {
        assert!(pair[0].1 <= pair[1].1);
    }
    let pages: Vec<i32> = marks.iter().map(|m| m.1).collect();
    assert_eq!(pages, vec![1, 5, 5, 12, 13, 13]);
    let titles: Vec<String> = marks.iter().map(|m| m.0.clone()).collect();
    assert_eq!(titles, vec!["ch0", "ch1", "ch2", "ch3", "ch4", "ch5"]);
}

#[test]
fn merge_order_is_processing_order() {
    let sections = vec![vec![chapter(3, "C3"), chapter(2, "C2"), chapter(1, "C1")]];
    let mut p = Pipeline::new("T", &Vec::new(), &sections);
    for _ in 0..3 {
        run_chapter(&mut p, 1);
    }
    assert_eq!(p.chapter_pdfs(), &vec![s("T-C1.pdf"), s("T-C2.pdf"), s("T-C3.pdf")]);
}

#[test]
fn only_first_section_is_processed() {
    let sections = vec![vec![chapter(1, "A")], vec![chapter(2, "X"), chapter(3, "Y")]];
    let mut p = Pipeline::new("T", &Vec::new(), &sections);
    assert_eq!(p.next_chapter(), Some(1));
    run_chapter(&mut p, 2);
    assert_eq!(p.stage(), Stage::Merging);
    assert_eq!(bookmarks(&p).len(), 1);
}

#[test]
fn title_without_chapters_goes_to_merge() {
    let p = Pipeline::new("T", &Vec::new(), &Vec::new());
    assert_eq!(p.stage(), Stage::Merging);
    assert!(p.chapter_pdfs().is_empty());
    let q = Pipeline::new("T", &Vec::new(), &vec![Vec::new(), vec![chapter(1, "A")]]);
    assert_eq!(q.stage(), Stage::Merging);
}

#[test]
fn failed_download_ends_assembly_without_pdf() {
    let sections = vec![vec![chapter(3, "C"), chapter(2, "B"), chapter(1, "A")]];
    let mut p = Pipeline::new("T", &Vec::new(), &sections);
    run_chapter(&mut p, 2);
    p.images_fetched(&pages("h", 2), "/tmp/c").expect("images taken");
    let reports = vec![
        DownloadReport { file_name: s("1.jpg"), outcome: DownloadOutcome::Failed(s("timed out")) },
        DownloadReport { file_name: s("0.jpg"), outcome: DownloadOutcome::Succeeded },
    ];
    match p.downloads_finished(&reports) {
        Err(PipelineError::DownloadFailed(failures)) => {
            assert_eq!(failures.len(), 1);
            assert_eq!(failures[0].file_name, "1.jpg");
            assert_eq!(failures[0].reason, "timed out");
        }
        other => panic!("expected a download failure, got {:?}", other),
    }
    assert_eq!(p.stage(), Stage::Failed);
    assert_eq!(p.chapter_pdfs(), &vec![s("T-A.pdf")]);
    assert_eq!(p.next_chapter(), None);
    assert!(matches!(p.tool_finished(true, String::new()), Err(PipelineError::OutOfTurn)));
    assert!(matches!(p.images_fetched(&pages("h", 1), "d"), Err(PipelineError::OutOfTurn)));
    assert!(matches!(p.downloads_finished(&all_ok(1)), Err(PipelineError::OutOfTurn)));
    assert!(matches!(p.bookmarks_written(Ok(())), Err(PipelineError::OutOfTurn)));
    assert_eq!(p.stage(), Stage::Failed);
    assert_eq!(p.chapter_pdfs().len(), 1);
}

#[test]
fn failed_fetch_ends_assembly() {
    let mut p = Pipeline::new("T", &Vec::new(), &vec![vec![chapter(1, "A")]]);
    assert!(matches!(p.fetch_failed(s("no route")), PipelineError::FetchFailed(r) if r == "no route"));
    assert_eq!(p.stage(), Stage::Failed);
    assert!(bookmarks(&p).is_empty());
    assert!(matches!(p.fetch_failed(s("again")), PipelineError::OutOfTurn));
}

#[test]
fn failed_tool_ends_assembly_with_error_text() {
    let mut p = Pipeline::new("T", &Vec::new(), &vec![vec![chapter(1, "A")]]);
    p.images_fetched(&pages("h", 1), "d").expect("images taken");
    p.downloads_finished(&all_ok(1)).expect("downloads taken");
    match p.tool_finished(false, s("img2pdf: broken")) {
        Err(PipelineError::ToolFailed(failure)) => assert_eq!(failure.stderr, "img2pdf: broken"),
        other => panic!("expected a tool failure, got {:?}", other),
    }
    assert_eq!(p.stage(), Stage::Failed);
    assert!(p.chapter_pdfs().is_empty());
}

#[test]
fn failed_merge_and_failed_write_end_assembly() {
    let mut p = Pipeline::new("T", &Vec::new(), &vec![vec![chapter(1, "A")]]);
    run_chapter(&mut p, 1);
    assert!(matches!(p.tool_finished(false, s("pdftk: no")), Err(PipelineError::ToolFailed(_))));
    assert_eq!(p.stage(), Stage::Failed);

    let mut q = Pipeline::new("T", &Vec::new(), &vec![vec![chapter(1, "A")]]);
    run_chapter(&mut q, 1);
    q.tool_finished(true, String::new()).expect("merge taken");
    assert!(matches!(q.bookmarks_written(Err(s("disk full"))), Err(PipelineError::WriteFailed(r)) if r == "disk full"));
    assert_eq!(q.stage(), Stage::Failed);
}

#[test]
fn reports_out_of_turn_change_nothing() {
    let mut p = Pipeline::new("T", &Vec::new(), &vec![vec![chapter(1, "A")]]);
    assert!(matches!(p.downloads_finished(&all_ok(1)), Err(PipelineError::OutOfTurn)));
    assert!(matches!(p.tool_finished(true, String::new()), Err(PipelineError::OutOfTurn)));
    assert!(matches!(p.bookmarks_written(Ok(())), Err(PipelineError::OutOfTurn)));
    assert_eq!(p.stage(), Stage::FetchingImages);
    assert_eq!(p.page(), 1);
    assert_eq!(p.toc().entries().len(), 2);
}

#[test]
fn download_tasks_of_a_chapter() {
    let mut p = Pipeline::new("T", &Vec::new(), &vec![vec![chapter(1, "A")]]);
    let images = vec![s("http://h/x.png"), s("http://h/y")];
    let tasks = p.images_fetched(&images, "/tmp/c").expect("images taken");
    assert_eq!(tasks[0].url, "http://h/x.png");
    assert_eq!(tasks[0].file_name, "0.png");
    assert_eq!(tasks[1].url, "http://h/y");
    assert_eq!(tasks[1].file_name, "1.");
}

#[test]
fn pdf_names() {
    assert_eq!(chapter_pdf_name("Saga", "Chapter 1"), "Saga-Chapter 1.pdf");
    assert_eq!(default_output_name("Saga"), "Saga.pdf");
}

#[test]
fn pause_between_chapters() {
    assert_eq!(dmzj2pdf::pipeline::CHAPTER_PAUSE_SECS, 1);
}

#[test]
fn address_that_is_no_url_ends_assembly() {
    let mut p = Pipeline::new("T", &Vec::new(), &vec![vec![chapter(1, "A")]]);
    let images = vec![s("http://h/0.jpg"), s("no scheme/1.jpg"), s("also bad")];
    match p.images_fetched(&images, "d") {
        Err(PipelineError::BadAddress(address)) => assert_eq!(address, "no scheme/1.jpg"),
        other => panic!("expected a bad address, got {:?}", other),
    }
    assert_eq!(p.stage(), Stage::Failed);
    assert_eq!(p.page(), 1);
    assert!(bookmarks(&p).is_empty());
    assert!(p.chapter_pdfs().is_empty());
}

#[test]
fn take_images_goes_by_the_given_address() {
    let mut p = Pipeline::new("T", &Vec::new(), &vec![vec![chapter(1, "A")]]);
    let images = vec![s("http://h/0.jpg")];
    assert!(matches!(
        p.take_images(&images, "d", Some(s("x"))),
        Err(PipelineError::BadAddress(a)) if a == "x"
    ));
    assert_eq!(p.stage(), Stage::Failed);

    let mut q = Pipeline::new("T", &Vec::new(), &vec![vec![chapter(1, "A")]]);
    let tasks = q.take_images(&vec![s("anything.gif"), s("else.gif")], "d", None).expect("taken");
    assert_eq!(tasks.len(), 2);
    assert_eq!(tasks[1].file_name, "1.gif");
    assert_eq!(q.page(), 3);
    assert_eq!(q.stage(), Stage::Downloading);
    assert_eq!(bookmarks(&q), vec![(s("A"), 1, 1)]);
}

#[test]
fn waiting_chapter_is_named_with_its_position() {
    let sections = vec![vec![chapter(2, "B"), chapter(1, "A")]];
    let mut p = Pipeline::new("T", &Vec::new(), &sections);
    assert_eq!(p.next_chapter_title(), Some(s("A")));
    assert_eq!(p.chapters_done(), 0);
    run_chapter(&mut p, 1);
    assert_eq!(p.next_chapter_title(), Some(s("B")));
    assert_eq!(p.chapters_done(), 1);
    run_chapter(&mut p, 1);
    assert_eq!(p.next_chapter_title(), None);
    assert_eq!(p.chapters_done(), 2);
}
