//! The packet shapes: one record per packet identifier whose layout is
//! defined, each with its wire codec.

pub mod add_painting_packet;
pub mod camera_packet;
pub mod chunk_radius_updated;
pub mod client_cache_status;
pub mod container_open_packet;
pub mod disconnect;
pub mod game_rules_changed;
pub mod login;
pub mod modal_form_request;
pub mod modal_form_response;
pub mod network_settings;
pub mod network_settings_request;
pub mod play_status;
pub mod remove_actor_packet;
pub mod server_settings_request;
pub mod server_settings_response;
pub mod set_local_player_as_initialized;
pub mod set_time_packet;
pub mod text_message;
pub mod toast_request_packet;
