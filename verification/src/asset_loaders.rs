//! Loading configuration assets written in YAML.
//!
//! The engine's asset server reads the file and a serde deserialiser turns
//! the text into the asset at the loading edge; the library holds the
//! loader's identity and the extensions it claims.

use vstd::prelude::*;

verus! {

/// The loader takes no settings.
#[derive(Debug, Clone, Copy, PartialEq, Eq, Structural)]
pub struct YamlLoaderSettings;

impl Default for YamlLoaderSettings {
    fn default() -> (r: Self)
        ensures
            r == YamlLoaderSettings,
    {
        YamlLoaderSettings
    }
}

/// A loader of one YAML asset kind, the kind carried as a marker.
#[derive(Debug)]
pub struct GenericYamlAssetLoader<T> {
    marker: core::marker::PhantomData<T>,
}

impl<T> GenericYamlAssetLoader<T> {
    /// A fresh loader.
    pub fn new() -> (r: Self) {
        GenericYamlAssetLoader { marker: core::marker::PhantomData }
    }

    /// The file extensions this loader claims.
    pub fn extensions(&self) -> (r: Vec<&'static str>)
        ensures
            r@.len() == 2,
            r@[0]@ == "yaml"@,
            r@[1]@ == "yml"@,
    {
        let mut exts: Vec<&'static str> = Vec::new();
        exts.push("yaml");
        exts.push("yml");
        exts
    }
}

impl<T> Default for GenericYamlAssetLoader<T> {
    fn default() -> (r: Self) {
        GenericYamlAssetLoader { marker: core::marker::PhantomData }
    }
}

} // verus!
