//! Verified core of the Hollow Knight auto splitter: split decisions,
//! timer bookkeeping, scene tracking, hit counting and settings handling.

pub mod text;
pub mod timer;
pub mod scenes;
pub mod keyed;
pub mod readings;
pub mod player_data;
pub mod radio_button;
pub mod splits;
pub mod split_options;
pub mod split_rules;
pub mod hit_counter;
pub mod load_remover;
pub mod ugly_list;
pub mod option_attrs;
pub mod settings_gui;
pub mod game_time;
pub mod player_events;
pub mod continuous_rules;
pub mod settings_value;
pub mod xml;
pub mod asr_xml;
pub mod legacy_xml;
pub mod auto_splitter_settings;
pub mod autosplit;
pub mod store;
pub mod list_settings;
pub mod executable;
