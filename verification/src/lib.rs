//! Music-domain logic of the island app: lyric parsing, KuGou integration rules,
//! progress tracking, and metadata resolution.

pub mod text;
pub mod lyrics;
pub mod json;
pub mod net;
pub mod b64;
pub mod kugou;
pub mod music;
pub mod provider;
pub mod kugou_cdp;
pub mod kugou_deploy;
pub mod resolver;
pub mod settings;
pub mod error;
