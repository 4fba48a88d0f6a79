pub mod connections;
pub mod definitions;
pub mod error;
pub mod event;
pub mod fbx_header_extension;
pub mod node_loader;
pub mod objects;
pub mod property;
pub mod scene;
pub mod table;
pub mod text;
pub mod utils;

pub use scene::FbxScene;
pub use text::separate_name_class;
