//! A scaffold generator for Move packages: given a package name, a
//! version, dependency entries and address bindings, it plans the
//! directory layout and renders the manifest that a fresh package
//! starts from.

pub mod manifest;
pub mod names;
pub mod scaffold;
pub mod sui;
