//! XDG Base Directory configuration resolver.
//!
//! Reads of the process environment happen outside this library; the
//! resolution logic here is a pure function of the values handed in.

mod xdg;

pub use xdg::Config;
pub use xdg::ConfigView;
pub use xdg::Value;
pub use xdg::ValueView;
pub use xdg::XdgError;
pub use xdg::classification;
pub use xdg::classify;
pub use xdg::default_config;
pub use xdg::default_view;
pub use xdg::get_config;
pub use xdg::get_config_with_defaults;
pub use xdg::get_env_or_default;
pub use xdg::home_present;
pub use xdg::lemma_blank_equals_absent;
pub use xdg::lemma_defaultable_fields_always_occupied;
pub use xdg::lemma_default_is_resolution_of_empty_env;
pub use xdg::lemma_runtime_dir_never_defaulted;
pub use xdg::opt_chars;
pub use xdg::render_view;
pub use xdg::resolution;
pub use xdg::resolution_alike;
pub use xdg::resolved_view;
pub use xdg::text_of;
