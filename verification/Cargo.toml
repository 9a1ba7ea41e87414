[package]
name = "argentum_game_coordinate_system"
version = "0.1.0"
edition = "2021"
publish = false

[dependencies]
quickcheck = "1"
