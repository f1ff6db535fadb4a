//! A single-route dispatcher that maps a request path to one of several
//! configured aliases, with optional disambiguation by User-Agent.
//!
//! A [`Resolver`] holds the alias table and the compiled agent patterns.
//! [`get_page`] resolves a request and says what has to be done to answer
//! it; the caller reads the file or fetches the external source and hands
//! the outcome back. Nothing here touches the file system or the network.

pub mod config;
pub mod decode;
pub mod dispatcher;
pub mod laws;
pub mod matcher;
pub mod model;
pub mod resolver;
pub mod selection;
pub mod table;

pub use config::get_config_file_location;
pub use config::ConfigLocation;
pub use decode::decode_path;
pub use dispatcher::answered_response;
pub use dispatcher::external_response;
pub use dispatcher::file_response;
pub use dispatcher::get_decoded_page;
pub use dispatcher::get_page;
pub use dispatcher::get_return;
pub use dispatcher::index;
pub use dispatcher::into_response;
pub use dispatcher::Action;
pub use dispatcher::DispatchError;
pub use dispatcher::FetchOutcome;
pub use matcher::CompiledMatcher;
pub use matcher::ConfigError;
pub use matcher::MatcherCache;
pub use model::Agent;
pub use model::Alias;
pub use model::AliasType;
pub use model::External;
pub use model::NixJson;
pub use model::Response;
pub use model::UserAgent;
pub use resolver::Resolver;
pub use selection::Verdict;
pub use table::AliasTable;
