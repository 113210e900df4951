//! What the service answers to its callers, once a pipeline has run.
use vstd::prelude::*;
use crate::chunker::texts;
use crate::error::PipelineError;

verus! {

/// A question about one document.
#[derive(Clone, Debug)]
pub struct InputPrompt {
    pub user_query: String,
    pub doc_name: String,
}

/// One document that can be asked about.
#[derive(Clone, Debug)]
pub struct DocInfo {
    pub name: String,
}

/// An answer to a caller: a status code and a text.
#[derive(Clone, Debug)]
pub struct Reply {
    pub status: u16,
    pub body: String,
}

/// The names held by a list of documents.
pub open spec fn names_of(docs: Seq<DocInfo>) -> Seq<Seq<char>> {
    docs.map_values(|d: DocInfo| d.name@)
}

/// The list of documents for the names of the store's collections, in the
/// same order.
pub fn doc_names(collection_names: &Vec<String>) -> (docs: Vec<DocInfo>)
    ensures
        names_of(docs@) == texts(collection_names@),
{
    let mut docs: Vec<DocInfo> = Vec::new();
    let mut i: usize = 0;
    while i < collection_names.len()
        invariant
            i <= collection_names.len(),
            names_of(docs@) == texts(collection_names@.take(i as int)),
        decreases collection_names.len() - i,
    {
        let doc = DocInfo { name: collection_names[i].clone() };
        proof {
            assert(names_of(docs@.push(doc)) =~= names_of(docs@).push(doc.name@));
            assert(texts(collection_names@.take(i + 1)) =~= texts(
                collection_names@.take(i as int),
            ).push(collection_names@[i as int]@));
        }
        docs.push(doc);
        i = i + 1;
    }
    proof {
        assert(collection_names@.take(i as int) =~= collection_names@);
    }
    docs
}

/// The answer to a request for a document's text: the text, or that there is
/// no such file.
pub fn file_handler(content: Option<String>) -> (reply: Reply)
    ensures
        match content {
            Some(text) => reply.status == 200 && reply.body == text,
            None => reply.status == 404 && reply.body@ == "File not found or cannot be read."@,
        },
{
    match content {
        Some(text) => Reply { status: 200, body: text },
        None => Reply { status: 404, body: "File not found or cannot be read.".to_owned() },
    }
}

/// The answer to an upload of `received` files of which `processed` were taken
/// in: a bad request where no file came, success where all were taken in, and
/// a failure of the service otherwise.
pub fn upload_file(received: usize, processed: usize) -> (reply: Reply)
    ensures
        received == 0 ==> reply.status == 400 && reply.body@ == "no pdf files were uploaded"@,
        received > 0 && processed == received ==> reply.status == 200 && reply.body@
            == "files uploaded successfully"@,
        received > 0 && processed != received ==> reply.status == 500 && reply.body@
            == "one or more uploads failed"@,
{
    if received == 0 {
        Reply { status: 400, body: "no pdf files were uploaded".to_owned() }
    } else if processed == received {
        Reply { status: 200, body: "files uploaded successfully".to_owned() }
    } else {
        Reply { status: 500, body: "one or more uploads failed".to_owned() }
    }
}

/// The answer to a question: the generated text, or the failure's description.
pub fn prompt_handler(outcome: Result<String, PipelineError>) -> (reply: Reply)
    ensures
        match outcome {
            Ok(text) => reply.status == 200 && reply.body == text,
            Err(e) => reply.status == 500 && reply.body@ == e.describe()@,
        },
{
    match outcome {
        Ok(text) => Reply { status: 200, body: text },
        Err(e) => Reply { status: 500, body: e.message().to_owned() },
    }
}

} // verus!
