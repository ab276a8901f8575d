//! The command lines of the outside tools and the reading of how they ended.

use vstd::prelude::*;
use vstd::string::*;
use crate::ledger::texts;

verus! {

/// A program and the arguments it is run with.
#[derive(Debug)]
pub struct Invocation {
    pub program: String,
    pub args: Vec<String>,
}

/// A tool ended with a failure status; `stderr` is what it wrote to its error
/// stream, unchanged.
#[derive(Debug)]
pub struct ToolFailure {
    pub stderr: String,
}

/// Arguments that turn the images, in the order given, into one PDF: rotate by
/// the image's own hint where that hint is valid.
pub open spec fn img2pdf_arguments(files: Seq<Seq<char>>, output: Seq<char>) -> Seq<Seq<char>> {
    seq!["--rotation=ifvalid"@] + files + seq!["-o"@, output]
}

/// Arguments that concatenate the PDFs in the order given.
pub open spec fn merge_arguments(pdfs: Seq<Seq<char>>, output: Seq<char>) -> Seq<Seq<char>> {
    pdfs + seq!["cat"@, "output"@, output]
}

/// Arguments that stamp the metadata and bookmarks of `toc` on `input`.
pub open spec fn stamp_arguments(input: Seq<char>, toc: Seq<char>, output: Seq<char>) -> Seq<
    Seq<char>,
> {
    seq![input, "update_info_utf8"@, toc, "output"@, output]
}

fn push_text(args: &mut Vec<String>, text: &str)
    ensures
        texts(final(args)@) == texts(old(args)@).push(text@),
{
    args.push(String::from_str(text));
    assert(texts(args@) =~= texts(old(args)@).push(text@));
}

fn push_all(args: &mut Vec<String>, more: &Vec<String>)
    ensures
        texts(final(args)@) == texts(old(args)@) + texts(more@),
{
    let mut i: usize = 0;
    assert(texts(args@) =~= texts(old(args)@) + texts(more@).subrange(0, 0));
    while i < more.len()
        invariant
            i <= more.len(),
            texts(args@) == texts(old(args)@) + texts(more@).subrange(0, i as int),
        decreases more.len() - i,
    {
        push_text(args, more[i].as_str());
        assert(texts(args@) =~= texts(old(args)@) + texts(more@).subrange(0, i + 1));
        i = i + 1;
    }
    assert(texts(more@).subrange(0, i as int) =~= texts(more@));
}

/// The command that turns a chapter's images into the chapter's PDF.
pub fn img2pdf_invocation(files: &Vec<String>, output: &str) -> (inv: Invocation)
    ensures
        inv.program@ == "img2pdf"@,
        texts(inv.args@) == img2pdf_arguments(texts(files@), output@),
{
    let mut args: Vec<String> = Vec::new();
    assert(texts(args@) =~= Seq::<Seq<char>>::empty());
    push_text(&mut args, "--rotation=ifvalid");
    push_all(&mut args, files);
    push_text(&mut args, "-o");
    push_text(&mut args, output);
    assert(texts(args@) =~= img2pdf_arguments(texts(files@), output@));
    Invocation { program: String::from_str("img2pdf"), args }
}

/// The command that concatenates the chapter PDFs, in the order given.
pub fn merge_invocation(pdfs: &Vec<String>, output: &str) -> (inv: Invocation)
    ensures
        inv.program@ == "pdftk"@,
        texts(inv.args@) == merge_arguments(texts(pdfs@), output@),
{
    let mut args: Vec<String> = Vec::new();
    assert(texts(args@) =~= Seq::<Seq<char>>::empty());
    push_all(&mut args, pdfs);
    push_text(&mut args, "cat");
    push_text(&mut args, "output");
    push_text(&mut args, output);
    assert(texts(args@) =~= merge_arguments(texts(pdfs@), output@));
    Invocation { program: String::from_str("pdftk"), args }
}

/// The command that stamps metadata and bookmarks on the merged PDF.
pub fn stamp_invocation(input: &str, toc: &str, output: &str) -> (inv: Invocation)
    ensures
        inv.program@ == "pdftk"@,
        texts(inv.args@) == stamp_arguments(input@, toc@, output@),
{
    let mut args: Vec<String> = Vec::new();
    assert(texts(args@) =~= Seq::<Seq<char>>::empty());
    push_text(&mut args, input);
    push_text(&mut args, "update_info_utf8");
    push_text(&mut args, toc);
    push_text(&mut args, "output");
    push_text(&mut args, output);
    assert(texts(args@) =~= stamp_arguments(input@, toc@, output@));
    Invocation { program: String::from_str("pdftk"), args }
}

/// Reads how a tool ended: a failure status is an error that carries the
/// tool's error stream, whatever it holds.
pub fn tool_result(success: bool, stderr: String) -> (result: Result<(), ToolFailure>)
    ensures
        success ==> result is Ok,
        !success ==> result == Err::<(), ToolFailure>(ToolFailure { stderr }),
{
    if success {
        Ok(())
    } else {
        Err(ToolFailure { stderr })
    }
}

} // verus!
