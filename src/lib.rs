//! Installs a launcher instance from a content pack: release resolution,
//! verified downloads, collision-free instance names, configuration patching,
//! icon conversion and a pipeline with monotone progress.

pub mod config;
pub mod download;
pub mod error;
pub mod guard;
pub mod icon;
pub mod instance;
pub mod metadata;
pub mod pipeline;
pub mod platform;
pub mod progress;
pub mod resolver;
pub mod text;

pub use config::{instance_config_edits, patch_config_text, ConfigEdit};
pub use download::{
    check_digest, check_published_digest, repo_display_name, DigestCheck, DownloadSession,
    DownloadState,
};
pub use error::InstallError;
pub use guard::{cleanup_log_level, join_path, CleanupStep, LogLevel, TemporaryFileCleaner};
pub use icon::{convert_icon, icon_extension, IconFiles};
pub use instance::{
    allocate_instance_name, launch_arguments, numbered_instance_name, pre_launch_command,
    shortcut_arguments, shortcut_file_name, MAX_SUFFIX,
};
pub use metadata::{payload_length, trailer_offset, ModpackConfig};
pub use pipeline::{InstallPipeline, PipelineState, ProgressEvent, Stage};
pub use platform::{get_prism_launcher_data, get_prism_launcher_exec};
pub use progress::{fraction_ppm, scale_into_slot, FULL};
pub use resolver::{
    is_installer_asset, is_portable_asset, newest_release_index, resolve_asset_url,
    timestamp_key_of, Release, ReleaseAsset,
};
pub use text::{contains_str, decimal_string, to_chars};
