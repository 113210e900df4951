use documind::error::PipelineError;
use documind::utils::{collection_name, is_pdf, is_pdf_extension, ConfigVar, ModelKind};

fn full_settings() -> ConfigVar {
    ConfigVar {
        embedding_model_url: Some("http://localhost:11434/api/embeddings".to_string()),
        embedding_model_name: Some("nomic-embed-text".to_string()),
        generate_model_url: Some("http://localhost:11434/api/generate".to_string()),
        generate_model_name: Some("llama3".to_string()),
        db_url: Some("http://localhost:6334".to_string()),
        embedding_model_chunk_size: Some(1000),
    }
}

#[test]
fn model_details_follow_the_kind() {
    let settings = full_settings();
    let (url, name) = settings.get_model_details(ModelKind::Generate).unwrap();
    assert_eq!(url, "http://localhost:11434/api/generate");
    assert_eq!(name, "llama3");
    let (url, name) = settings.get_model_details(ModelKind::Embedding).unwrap();
    assert_eq!(url, "http://localhost:11434/api/embeddings");
    assert_eq!(name, "nomic-embed-text");
}

#[test]
fn missing_model_setting_is_a_configuration_error() {
    let mut settings = full_settings();
    settings.generate_model_name = None;
    assert_eq!(settings.get_model_details(ModelKind::Generate), Err(PipelineError::Config));
    assert!(settings.get_model_details(ModelKind::Embedding).is_ok());
    settings.embedding_model_url = None;
    assert_eq!(settings.get_model_details(ModelKind::Embedding), Err(PipelineError::Config));
}

#[test]
fn chunk_size_must_be_present_and_positive() {
    let mut settings = full_settings();
    assert_eq!(settings.chunk_size(), Ok(1000));
    settings.embedding_model_chunk_size = Some(0);
    assert_eq!(settings.chunk_size(), Err(PipelineError::Chunking));
    settings.embedding_model_chunk_size = None;
    assert_eq!(settings.chunk_size(), Err(PipelineError::Config));
}

#[test]
fn validation_wants_every_setting() {
    assert_eq!(full_settings().validate(), Ok(()));
    let mut settings = full_settings();
    settings.db_url = None;
    assert_eq!(settings.validate(), Err(PipelineError::Config));
    let mut settings = full_settings();
    settings.embedding_model_chunk_size = Some(0);
    assert_eq!(settings.validate(), Err(PipelineError::Chunking));
    settings.generate_model_url = None;
    assert_eq!(settings.validate(), Err(PipelineError::Config));
    let mut settings = full_settings();
    settings.embedding_model_chunk_size = None;
    assert_eq!(settings.validate(), Err(PipelineError::Config));
}

#[test]
fn pdf_files_are_told_by_their_extension() {
    assert!(is_pdf("report.pdf"));
    assert!(is_pdf("REPORT.PDF"));
    assert!(is_pdf("mixed.PdF"));
    assert!(is_pdf("two.dots.pdf"));
    assert!(!is_pdf("report.txt"));
    assert!(!is_pdf("report.pdfx"));
    assert!(!is_pdf("report"));
    assert!(!is_pdf("pdf"));
    assert!(!is_pdf(".pdf"));
    assert!(!is_pdf(""));
}

#[test]
fn pdf_extension_ignores_case() {
    assert!(is_pdf_extension("pdf"));
    assert!(is_pdf_extension("PDF"));
    assert!(is_pdf_extension("pDf"));
    assert!(!is_pdf_extension("pd"));
    assert!(!is_pdf_extension("pdff"));
    assert!(!is_pdf_extension("pdg"));
    assert!(!is_pdf_extension(""));
    assert!(!is_pdf_extension("pdé"));
}

#[test]
fn collection_is_named_after_the_file() {
    assert_eq!(collection_name("report.pdf"), Ok("report".to_string()));
    assert_eq!(collection_name("a.b.pdf"), Ok("a.b".to_string()));
    assert_eq!(collection_name("résumé.pdf"), Ok("résumé".to_string()));
    assert_eq!(collection_name(".pdf"), Ok(String::new()));
}

#[test]
fn name_without_the_suffix_is_refused() {
    assert_eq!(collection_name("report"), Err(PipelineError::BadIdentifier));
    assert_eq!(collection_name("report.txt"), Err(PipelineError::BadIdentifier));
    assert_eq!(collection_name("report.PDF"), Err(PipelineError::BadIdentifier));
    assert_eq!(collection_name("report.pdf.bak"), Err(PipelineError::BadIdentifier));
    assert_eq!(collection_name("pdf"), Err(PipelineError::BadIdentifier));
    assert_eq!(collection_name(""), Err(PipelineError::BadIdentifier));
}

#[test]
fn uploads_are_kept_in_one_directory() {
    assert_eq!(documind::utils::upload_path("report.pdf"), "./uploads/report.pdf");
    assert_eq!(documind::utils::upload_path(""), "./uploads/");
}
