//! Layers and their schemas, as far as features need them.

use crate::handle::Handle;
use vstd::prelude::*;

verus! {

/// The schema of a layer: which fields and which geometry fields a feature of
/// that layer has. Features borrow their schema and cannot outlive it.
#[derive(PartialEq, Eq, Debug)]
pub struct Defn {
    c_defn: Handle,
}

impl Defn {
    /// The schema behind the native handle `c_defn`.
    pub fn new(c_defn: Handle) -> (defn: Defn)
        ensures
            defn.c_defn_spec() == c_defn,
    {
        Defn { c_defn }
    }

    /// The native handle of the schema.
    pub closed spec fn c_defn_spec(&self) -> Handle {
        self.c_defn
    }

    /// The native handle of the schema.
    #[verifier::when_used_as_spec(c_defn_spec)]
    pub fn c_defn(&self) -> (h: Handle)
        ensures
            h == self.c_defn_spec(),
    {
        self.c_defn
    }
}

/// A collection of features that share one schema.
#[derive(PartialEq, Eq, Debug)]
pub struct Layer {
    c_layer: Handle,
    defn: Defn,
}

impl Layer {
    /// The layer behind the native handle `c_layer`, whose schema is `defn`.
    pub fn new(c_layer: Handle, defn: Defn) -> (layer: Layer)
        ensures
            layer.gdal_object_ptr_spec() == c_layer,
            *layer.defn_spec() == defn,
    {
        Layer { c_layer, defn }
    }

    /// The native handle of the layer.
    pub closed spec fn gdal_object_ptr_spec(&self) -> Handle {
        self.c_layer
    }

    /// The schema of the layer.
    pub closed spec fn defn_spec(&self) -> &Defn {
        &self.defn
    }

    /// The native handle of the layer.
    #[verifier::when_used_as_spec(gdal_object_ptr_spec)]
    pub fn gdal_object_ptr(&self) -> (h: Handle)
        ensures
            h == self.gdal_object_ptr_spec(),
    {
        self.c_layer
    }

    /// The schema of the layer.
    #[verifier::when_used_as_spec(defn_spec)]
    pub fn defn(&self) -> (defn: &Defn)
        ensures
            defn == self.defn_spec(),
    {
        &self.defn
    }
}

} // verus!
