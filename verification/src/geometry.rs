//! Geometries, as the binding holds them.

use crate::handle::Handle;
use crate::native::{Request, RequestView};
use vstd::prelude::*;

verus! {

/// A spatial shape that lives in the native library.
///
/// A geometry is either freestanding, and then owned: it was made on its own
/// and must be released on its own; or it is one of the geometry slots of a
/// feature. A slot starts unbound and is bound, on first access, to the
/// geometry that the native feature holds. A bound slot is borrowed: the
/// native feature releases it.
#[derive(PartialEq, Eq, Debug)]
pub enum Geometry {
    /// A slot of a feature that was not read yet.
    Unbound,
    /// A slot of a feature, bound to the native feature's own geometry.
    Bound(Handle),
    /// A freestanding geometry.
    Owned(Handle),
}

/// The release that a geometry without a holder is owed: one request for a
/// freestanding geometry, none for any other.
pub open spec fn geometry_release(geometry: Geometry) -> Seq<RequestView> {
    match geometry {
        Geometry::Owned(geometry) => seq![RequestView::GeometryDestroy { geometry }],
        _ => Seq::empty(),
    }
}

impl View for Geometry {
    type V = Geometry;

    open spec fn view(&self) -> Geometry {
        *self
    }
}

impl Geometry {
    /// Whether a native geometry stands behind this value.
    pub open spec fn has_gdal_ptr_spec(&self) -> bool {
        !(*self is Unbound)
    }

    /// Whether the holder of this value must release the native geometry.
    pub open spec fn is_owned_spec(&self) -> bool {
        *self is Owned
    }

    /// The handle of the native geometry; unspecified for an unbound slot.
    pub open spec fn c_geometry_spec(&self) -> Handle {
        match *self {
            Geometry::Unbound => Handle { addr: 0 },
            Geometry::Bound(h) => h,
            Geometry::Owned(h) => h,
        }
    }

    /// A geometry slot of a feature, before its first access.
    pub fn lazy_feature_geometry() -> (g: Geometry)
        ensures
            g == Geometry::Unbound,
    {
        Geometry::Unbound
    }

    /// The geometry behind `c_geometry`, owned or borrowed as `owned` says.
    pub fn with_c_geometry(c_geometry: Handle, owned: bool) -> (g: Geometry)
        ensures
            g == if owned {
                Geometry::Owned(c_geometry)
            } else {
                Geometry::Bound(c_geometry)
            },
    {
        if owned {
            Geometry::Owned(c_geometry)
        } else {
            Geometry::Bound(c_geometry)
        }
    }

    /// Whether a native geometry stands behind this value.
    #[verifier::when_used_as_spec(has_gdal_ptr_spec)]
    pub fn has_gdal_ptr(&self) -> (b: bool)
        ensures
            b == self.has_gdal_ptr_spec(),
    {
        match self {
            Geometry::Unbound => false,
            _ => true,
        }
    }

    /// Whether the holder of this value must release the native geometry.
    #[verifier::when_used_as_spec(is_owned_spec)]
    pub fn is_owned(&self) -> (b: bool)
        ensures
            b == self.is_owned_spec(),
    {
        match self {
            Geometry::Owned(_) => true,
            _ => false,
        }
    }

    /// The handle of the native geometry.
    #[verifier::when_used_as_spec(c_geometry_spec)]
    pub fn c_geometry(&self) -> (h: Handle)
        requires
            self.has_gdal_ptr(),
        ensures
            h == self.c_geometry_spec(),
    {
        match self {
            Geometry::Unbound => Handle::null(),
            Geometry::Bound(h) => *h,
            Geometry::Owned(h) => *h,
        }
    }

    /// Ends the geometry: the call that releases it, where it is freestanding.
    /// A slot of a feature, bound or not, is owed none: the native feature
    /// releases what it lent.
    pub fn destroy(self) -> (request: Option<Request>)
        ensures
            geometry_release(self) == match request {
                Some(request) => seq![request@],
                None => Seq::<RequestView>::empty(),
            },
    {
        match self {
            Geometry::Owned(geometry) => Some(Request::GeometryDestroy { geometry }),
            _ => None,
        }
    }

    /// Binds an unbound slot to the native geometry behind `c_geometry`.
    pub fn set_c_geometry(&mut self, c_geometry: Handle)
        requires
            !old(self).has_gdal_ptr(),
        ensures
            *final(self) == Geometry::Bound(c_geometry),
    {
        *self = Geometry::Bound(c_geometry);
    }
}

} // verus!
