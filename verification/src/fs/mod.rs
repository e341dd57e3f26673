//! Iris: the virtual file system types and the native file system.
pub mod elf;
pub mod phoenixfs;
pub mod ramfs;
pub mod shell;

use vstd::prelude::*;

verus! {

/// Type of file system node.
#[derive(Debug, Clone, Copy, PartialEq, Eq, Structural)]
pub enum NodeType {
    /// A standard file.
    File,
    /// A directory.
    Directory,
    /// A semantic link (JARVIS-specific).
    SemanticLink,
}

/// A node in the virtual file system.
#[derive(Debug)]
pub struct VfsNode {
    /// Name of the node.
    pub name: String,
    /// Type of the node.
    pub node_type: NodeType,
    /// Metadata tags (Semantic VFS).
    pub tags: Vec<String>,
}

/// Trait representing a file system implementation.
pub trait FileSystem {
    /// Read a file by name.
    fn read(&self, path: &str) -> Option<Vec<u8>>;

    /// Write a file by name.
    fn write(&mut self, path: &str, data: Vec<u8>) -> bool;
}

} // verus!
