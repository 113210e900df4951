//! Settings, and small helpers on file names.
use vstd::prelude::*;
use vstd::string::StringExecFns;
use crate::error::PipelineError;

verus! {

/// The two roles a model plays in the pipeline.
#[derive(Clone, Copy, Debug, PartialEq, Eq, Structural)]
pub enum ModelKind {
    /// Produces the answer text.
    Generate,
    /// Turns a piece of text into a vector.
    Embedding,
}

/// The settings of one process. Read once, never changed afterwards.
#[derive(Clone, Debug)]
pub struct ConfigVar {
    pub embedding_model_url: Option<String>,
    pub embedding_model_name: Option<String>,
    pub generate_model_url: Option<String>,
    pub generate_model_name: Option<String>,
    pub db_url: Option<String>,
    pub embedding_model_chunk_size: Option<usize>,
}

impl ConfigVar {
    /// The address configured for a model of the given kind.
    pub open spec fn model_url(&self, kind: ModelKind) -> Option<String> {
        match kind {
            ModelKind::Generate => self.generate_model_url,
            ModelKind::Embedding => self.embedding_model_url,
        }
    }

    /// The name configured for a model of the given kind.
    pub open spec fn model_name(&self, kind: ModelKind) -> Option<String> {
        match kind {
            ModelKind::Generate => self.generate_model_name,
            ModelKind::Embedding => self.embedding_model_name,
        }
    }

    /// Every setting is present, and the chunk size is positive.
    pub open spec fn complete(&self) -> bool {
        &&& self.embedding_model_url is Some
        &&& self.embedding_model_name is Some
        &&& self.generate_model_url is Some
        &&& self.generate_model_name is Some
        &&& self.db_url is Some
        &&& self.embedding_model_chunk_size is Some
        &&& self.embedding_model_chunk_size->Some_0 > 0
    }

    /// The address and the name of the model of the given kind. Fails when
    /// either is not configured.
    pub fn get_model_details(&self, kind: ModelKind) -> (result: Result<
        (&String, &String),
        PipelineError,
    >)
        ensures
            result is Ok <==> self.model_url(kind) is Some && self.model_name(kind) is Some,
            result is Ok ==> *result->Ok_0.0 == self.model_url(kind)->Some_0
                && *result->Ok_0.1 == self.model_name(kind)->Some_0,
            result is Err ==> result->Err_0 == PipelineError::Config,
    {
        let (url, name) = match kind {
            ModelKind::Generate => (&self.generate_model_url, &self.generate_model_name),
            ModelKind::Embedding => (&self.embedding_model_url, &self.embedding_model_name),
        };
        match (url, name) {
            (Some(model_url), Some(model_name)) => Ok((model_url, model_name)),
            _ => Err(PipelineError::Config),
        }
    }

    /// The configured chunk size. A missing size is a configuration error; a
    /// size of zero is a chunking error.
    pub fn chunk_size(&self) -> (result: Result<usize, PipelineError>)
        ensures
            match self.embedding_model_chunk_size {
                None => result == Err::<usize, PipelineError>(PipelineError::Config),
                Some(size) => if size == 0 {
                    result == Err::<usize, PipelineError>(PipelineError::Chunking)
                } else {
                    result == Ok::<usize, PipelineError>(size)
                },
            },
    {
        match self.embedding_model_chunk_size {
            None => Err(PipelineError::Config),
            Some(size) => if size == 0 {
                Err(PipelineError::Chunking)
            } else {
                Ok(size)
            },
        }
    }

    /// Checks at start-up that nothing is missing.
    pub fn validate(&self) -> (result: Result<(), PipelineError>)
        ensures
            result is Ok <==> self.complete(),
            result is Err ==> result->Err_0 == (if self.embedding_model_chunk_size
                == Some(0usize) && self.embedding_model_url is Some
                && self.embedding_model_name is Some && self.generate_model_url is Some
                && self.generate_model_name is Some && self.db_url is Some {
                PipelineError::Chunking
            } else {
                PipelineError::Config
            }),
    {
        if self.embedding_model_url.is_none() || self.embedding_model_name.is_none()
            || self.generate_model_url.is_none() || self.generate_model_name.is_none()
            || self.db_url.is_none() {
            return Err(PipelineError::Config);
        }
        match self.chunk_size() {
            Ok(_) => Ok(()),
            Err(e) => Err(e),
        }
    }
}

/// The extension that `std::path::Path::extension` finds in a path written as
/// text, on the platform the library is built for; `None` where it finds none.
pub uninterp spec fn path_extension(path: Seq<char>) -> Option<Seq<char>>;

/// Calls `std::path::Path::extension` on `file_name`. Nothing is proved of it:
/// the result is only given its name, [`path_extension`].
#[verifier::external_body]
fn extension_of(file_name: &str) -> (ext: Option<String>)
    ensures
        ext is Some <==> path_extension(file_name@) is Some,
        ext is Some ==> ext->Some_0@ == path_extension(file_name@)->Some_0,
{
    match std::path::Path::new(file_name).extension() {
        Some(ext) => match ext.to_str() {
            Some(text) => Some(text.to_string()),
            None => None,
        },
        None => None,
    }
}

/// `ext` reads "pdf", in upper or lower case letters or a mix of them.
pub open spec fn names_pdf(ext: Seq<char>) -> bool {
    &&& ext.len() == 3
    &&& (ext[0] == 'p' || ext[0] == 'P')
    &&& (ext[1] == 'd' || ext[1] == 'D')
    &&& (ext[2] == 'f' || ext[2] == 'F')
}

/// Tells whether an extension is that of a PDF file, ignoring ASCII case.
pub fn is_pdf_extension(ext: &str) -> (result: bool)
    ensures
        result == names_pdf(ext@),
{
    if ext.unicode_len() != 3 {
        return false;
    }
    let first = ext.get_char(0);
    let second = ext.get_char(1);
    let third = ext.get_char(2);
    (first == 'p' || first == 'P') && (second == 'd' || second == 'D') && (third == 'f' || third
        == 'F')
}

/// Tells whether a file name has the extension of a PDF file.
pub fn is_pdf(file_name: &str) -> (result: bool)
    ensures
        result == match path_extension(file_name@) {
            Some(ext) => names_pdf(ext),
            None => false,
        },
{
    match extension_of(file_name) {
        Some(ext) => is_pdf_extension(ext.as_str()),
        None => false,
    }
}

/// The place where an uploaded file of the given name is kept.
pub fn upload_path(file_name: &str) -> (path: String)
    ensures
        path@ == "./uploads/"@ + file_name@,
{
    let mut path = String::from_str("./uploads/");
    path.append(file_name);
    path
}

/// The suffix that the name of an ingested document carries.
pub open spec fn document_suffix() -> Seq<char> {
    seq!['.', 'p', 'd', 'f']
}

/// `name` ends with the document suffix.
pub open spec fn has_document_suffix(name: Seq<char>) -> bool {
    name.len() >= 4 && name.skip(name.len() - 4) == document_suffix()
}

/// Derives the name of a document's collection from its file name: the file
/// name without its `.pdf` suffix. A name without that suffix is refused.
pub fn collection_name(doc_name: &str) -> (result: Result<String, PipelineError>)
    ensures
        result is Ok <==> has_document_suffix(doc_name@),
        result is Ok ==> result->Ok_0@ == doc_name@.take(doc_name@.len() - 4),
        result is Err ==> result->Err_0 == PipelineError::BadIdentifier,
{
    let len = doc_name.unicode_len();
    if len < 4 {
        return Err(PipelineError::BadIdentifier);
    }
    let stem_len: usize = len - 4;
    let ghost tail = doc_name@.skip(doc_name@.len() - 4);
    proof {
        assert(tail.len() == 4);
        assert(tail[0] == doc_name@[stem_len as int]);
        assert(tail[1] == doc_name@[stem_len + 1]);
        assert(tail[2] == doc_name@[stem_len + 2]);
        assert(tail[3] == doc_name@[stem_len + 3]);
    }
    if doc_name.get_char(stem_len) == '.' && doc_name.get_char(stem_len + 1) == 'p'
        && doc_name.get_char(stem_len + 2) == 'd' && doc_name.get_char(stem_len + 3) == 'f' {
        proof {
            assert(tail =~= document_suffix());
        }
        Ok(doc_name.substring_char(0, stem_len).to_owned())
    } else {
        Err(PipelineError::BadIdentifier)
    }
}

} // verus!
