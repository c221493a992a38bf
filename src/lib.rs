//! Persistent configuration of the tunnelling daemon: where its files live,
//! the rules for its secret key, and how a configuration document is read.

mod error;
mod key;
mod paths;
mod schema;

pub use error::{classify, ConfigError, IoFailure};
pub use key::{
    is_white, is_white_char, key_file_contents, key_from_contents, key_from_read, lemma_blank_key_is_empty,
    lemma_key_round_trip, skip_back, skip_front, trim_whitespace, trimmed,
};
pub use paths::{
    config_file_full, config_path_root, file_in_root, key_file_full, root_of, separator_of,
    Platform, CONFIG_FILE, KEY_FILE,
};
pub use schema::{
    document_result, falls_back, is_blank, is_blank_document, is_document_space, is_empty_config,
    lemma_malformed_file_is_parsing, lemma_parsed_config_is_loaded, lemma_missing_file_is_not_found,
    lemma_zero_byte_file_is_empty, load_result, EbbflowDaemonConfig, Endpoint,
    PossiblyEmptyEbbflowDaemonConfig, Ssh,
};
