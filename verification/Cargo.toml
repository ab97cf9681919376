[package]
name = "infra_sim"
version = "0.1.0"
edition = "2021"
publish = false

[dependencies]
bevy = { version = "=0.17.3", default-features = false, features = ["std", "async_executor", "multi_threaded", "bevy_asset", "bevy_camera", "bevy_color", "bevy_core_pipeline", "bevy_gltf", "bevy_image", "bevy_light", "bevy_log", "bevy_mesh", "bevy_mesh_picking_backend", "bevy_pbr", "bevy_picking", "bevy_render", "bevy_scene", "bevy_shader", "bevy_state", "bevy_text", "bevy_ui", "bevy_ui_picking_backend", "bevy_ui_render", "bevy_window", "default_font", "png", "tonemapping_luts", "ktx2", "zstd_rust"] }
