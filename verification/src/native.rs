//! The calls that the binding asks for and the answers it is handed.
//!
//! One [`Request`] is one call of one native function, with its arguments as
//! plain values. One [`Response`] is what that call returned. A string that
//! the native library hands out is copied before it becomes a response.

use crate::handle::Handle;
use vstd::prelude::*;

verus! {

/// The native status code of success.
pub const OGRERR_NONE: u32 = 0;

/// One call into the native library.
#[allow(inconsistent_fields)]
#[derive(PartialEq, Eq, Debug)]
pub enum Request {
    /// `OGR_F_Create`: a new feature for the schema `defn`. Answer: its handle, or null.
    FeatureCreate { defn: Handle },
    /// `OGR_FD_GetGeomFieldCount`: how many geometry fields `defn` declares. Answer: an integer.
    GeomFieldCount { defn: Handle },
    /// `OGR_F_GetFieldIndex`: the index of the field `name`. Answer: an integer, -1 for none.
    FieldIndex { feature: Handle, name: String },
    /// `OGR_F_GetFieldDefnRef`: the definition of field `index`. Answer: a handle.
    FieldDefnRef { feature: Handle, index: i32 },
    /// `OGR_Fld_GetType`: the type of the field defined by `field_defn`. Answer: a code.
    FieldType { field_defn: Handle },
    /// `OGR_F_GetFieldAsString`: field `index` as text. Answer: a text.
    FieldAsString { feature: Handle, index: i32 },
    /// `OGR_F_GetFieldAsDouble`: field `index` as a real number. Answer: a real.
    FieldAsDouble { feature: Handle, index: i32 },
    /// `OGR_F_GetFieldAsInteger`: field `index` as a whole number. Answer: an integer.
    FieldAsInteger { feature: Handle, index: i32 },
    /// `OGR_F_SetFieldString`: store a text in field `index`. No answer.
    SetFieldString { feature: Handle, index: i32, value: String },
    /// `OGR_F_SetFieldDouble`: store a real number in field `index`. No answer.
    SetFieldDouble { feature: Handle, index: i32, value: u64 },
    /// `OGR_F_SetFieldInteger`: store a whole number in field `index`. No answer.
    SetFieldInteger { feature: Handle, index: i32, value: i32 },
    /// `OGR_F_GetGeometryRef`: the feature's primary geometry. Answer: a handle, or null.
    GeometryRef { feature: Handle },
    /// `OGR_F_GetGeomFieldIndex`: the index of the geometry field `name`. Answer: an integer, -1 for none.
    GeomFieldIndex { feature: Handle, name: String },
    /// `OGR_F_GetGeomFieldRef`: the geometry in geometry field `index`. Answer: a handle, or null.
    GeomFieldRef { feature: Handle, index: i32 },
    /// `OGR_F_SetGeometry`: give the feature a copy of `geometry`. Answer: a status code.
    SetGeometry { feature: Handle, geometry: Handle },
    /// `OGR_L_CreateFeature`: write the feature into `layer`. Answer: a status code.
    LayerCreateFeature { layer: Handle, feature: Handle },
    /// `OGR_F_Destroy`: release the feature. No answer.
    FeatureDestroy { feature: Handle },
    /// `OGR_G_DestroyGeometry`: release a freestanding geometry. No answer.
    GeometryDestroy { geometry: Handle },
    /// `OGR_G_CreateFromWkt`: make a freestanding geometry from its
    /// well-known text. Answer: a status code and the new geometry.
    GeometryFromWkt { wkt: String },
    /// `CPLGetLastErrorMsg`: the native library's last error message. Answer: a text.
    LastErrorMsg,
    /// `CPLErrorReset`: forget the last error. No answer.
    ErrorReset,
}

/// The mathematical value of a [`Request`].
#[allow(inconsistent_fields)]
pub ghost enum RequestView {
    FeatureCreate { defn: Handle },
    GeomFieldCount { defn: Handle },
    FieldIndex { feature: Handle, name: Seq<char> },
    FieldDefnRef { feature: Handle, index: i32 },
    FieldType { field_defn: Handle },
    FieldAsString { feature: Handle, index: i32 },
    FieldAsDouble { feature: Handle, index: i32 },
    FieldAsInteger { feature: Handle, index: i32 },
    SetFieldString { feature: Handle, index: i32, value: Seq<char> },
    SetFieldDouble { feature: Handle, index: i32, value: u64 },
    SetFieldInteger { feature: Handle, index: i32, value: i32 },
    GeometryRef { feature: Handle },
    GeomFieldIndex { feature: Handle, name: Seq<char> },
    GeomFieldRef { feature: Handle, index: i32 },
    SetGeometry { feature: Handle, geometry: Handle },
    LayerCreateFeature { layer: Handle, feature: Handle },
    FeatureDestroy { feature: Handle },
    GeometryDestroy { geometry: Handle },
    GeometryFromWkt { wkt: Seq<char> },
    LastErrorMsg,
    ErrorReset,
}

impl View for Request {
    type V = RequestView;

    open spec fn view(&self) -> RequestView {
        match *self {
            Request::FeatureCreate { defn } => RequestView::FeatureCreate { defn },
            Request::GeomFieldCount { defn } => RequestView::GeomFieldCount { defn },
            Request::FieldIndex { feature, name } => RequestView::FieldIndex { feature, name: name@ },
            Request::FieldDefnRef { feature, index } => RequestView::FieldDefnRef { feature, index },
            Request::FieldType { field_defn } => RequestView::FieldType { field_defn },
            Request::FieldAsString { feature, index } => RequestView::FieldAsString {
                feature,
                index,
            },
            Request::FieldAsDouble { feature, index } => RequestView::FieldAsDouble {
                feature,
                index,
            },
            Request::FieldAsInteger { feature, index } => RequestView::FieldAsInteger {
                feature,
                index,
            },
            Request::SetFieldString { feature, index, value } => RequestView::SetFieldString {
                feature,
                index,
                value: value@,
            },
            Request::SetFieldDouble { feature, index, value } => RequestView::SetFieldDouble {
                feature,
                index,
                value,
            },
            Request::SetFieldInteger { feature, index, value } => RequestView::SetFieldInteger {
                feature,
                index,
                value,
            },
            Request::GeometryRef { feature } => RequestView::GeometryRef { feature },
            Request::GeomFieldIndex { feature, name } => RequestView::GeomFieldIndex {
                feature,
                name: name@,
            },
            Request::GeomFieldRef { feature, index } => RequestView::GeomFieldRef { feature, index },
            Request::SetGeometry { feature, geometry } => RequestView::SetGeometry {
                feature,
                geometry,
            },
            Request::LayerCreateFeature { layer, feature } => RequestView::LayerCreateFeature {
                layer,
                feature,
            },
            Request::FeatureDestroy { feature } => RequestView::FeatureDestroy { feature },
            Request::GeometryDestroy { geometry } => RequestView::GeometryDestroy { geometry },
            Request::GeometryFromWkt { wkt } => RequestView::GeometryFromWkt { wkt: wkt@ },
            Request::LastErrorMsg => RequestView::LastErrorMsg,
            Request::ErrorReset => RequestView::ErrorReset,
        }
    }
}

/// The shape of the answer that a request calls for.
#[derive(Clone, Copy, PartialEq, Eq, Structural, Debug)]
pub enum Kind {
    Handle,
    Integer,
    Code,
    Real,
    Text,
    Made,
    Nothing,
}

impl RequestView {
    /// The shape of the answer that this request calls for.
    pub open spec fn answer(self) -> Kind {
        match self {
            RequestView::FeatureCreate { .. } => Kind::Handle,
            RequestView::GeomFieldCount { .. } => Kind::Integer,
            RequestView::FieldIndex { .. } => Kind::Integer,
            RequestView::FieldDefnRef { .. } => Kind::Handle,
            RequestView::FieldType { .. } => Kind::Code,
            RequestView::FieldAsString { .. } => Kind::Text,
            RequestView::FieldAsDouble { .. } => Kind::Real,
            RequestView::FieldAsInteger { .. } => Kind::Integer,
            RequestView::SetFieldString { .. } => Kind::Nothing,
            RequestView::SetFieldDouble { .. } => Kind::Nothing,
            RequestView::SetFieldInteger { .. } => Kind::Nothing,
            RequestView::GeometryRef { .. } => Kind::Handle,
            RequestView::GeomFieldIndex { .. } => Kind::Integer,
            RequestView::GeomFieldRef { .. } => Kind::Handle,
            RequestView::SetGeometry { .. } => Kind::Code,
            RequestView::LayerCreateFeature { .. } => Kind::Code,
            RequestView::FeatureDestroy { .. } => Kind::Nothing,
            RequestView::GeometryDestroy { .. } => Kind::Nothing,
            RequestView::GeometryFromWkt { .. } => Kind::Made,
            RequestView::LastErrorMsg => Kind::Text,
            RequestView::ErrorReset => Kind::Nothing,
        }
    }

    /// Whether this request changes what a feature holds: a field or its geometry.
    pub open spec fn writes_feature(self) -> bool {
        ||| self is SetFieldString
        ||| self is SetFieldDouble
        ||| self is SetFieldInteger
        ||| self is SetGeometry
    }

    /// Whether this request adds a feature to a layer.
    pub open spec fn writes_layer(self) -> bool {
        self is LayerCreateFeature
    }

    /// Whether this request releases a native object.
    pub open spec fn releases(self) -> bool {
        self is FeatureDestroy || self is GeometryDestroy
    }
}

impl Request {
    /// The shape of the answer that this request calls for.
    pub fn answer(&self) -> (kind: Kind)
        ensures
            kind == self@.answer(),
    {
        match self {
            Request::FeatureCreate { .. } => Kind::Handle,
            Request::GeomFieldCount { .. } => Kind::Integer,
            Request::FieldIndex { .. } => Kind::Integer,
            Request::FieldDefnRef { .. } => Kind::Handle,
            Request::FieldType { .. } => Kind::Code,
            Request::FieldAsString { .. } => Kind::Text,
            Request::FieldAsDouble { .. } => Kind::Real,
            Request::FieldAsInteger { .. } => Kind::Integer,
            Request::SetFieldString { .. } => Kind::Nothing,
            Request::SetFieldDouble { .. } => Kind::Nothing,
            Request::SetFieldInteger { .. } => Kind::Nothing,
            Request::GeometryRef { .. } => Kind::Handle,
            Request::GeomFieldIndex { .. } => Kind::Integer,
            Request::GeomFieldRef { .. } => Kind::Handle,
            Request::SetGeometry { .. } => Kind::Code,
            Request::LayerCreateFeature { .. } => Kind::Code,
            Request::FeatureDestroy { .. } => Kind::Nothing,
            Request::GeometryDestroy { .. } => Kind::Nothing,
            Request::GeometryFromWkt { .. } => Kind::Made,
            Request::LastErrorMsg => Kind::Text,
            Request::ErrorReset => Kind::Nothing,
        }
    }
}

/// What one native call returned.
#[derive(PartialEq, Eq, Debug)]
pub enum Response {
    /// The address of a native object; null where the library had none to give.
    Handle(Handle),
    /// A C `int`: an index, a count or a field's value.
    Integer(i32),
    /// A code of a native enumeration: a field type or a status.
    Code(u32),
    /// The 64 bits of a C `double`.
    Real(u64),
    /// A copy of a C string.
    Text(String),
    /// A status code, and the object that the call made where the status is
    /// that of success.
    Made { status: u32, object: Handle },
    /// The call returns nothing.
    Nothing,
}

/// The mathematical value of a [`Response`].
pub ghost enum ResponseView {
    Handle(Handle),
    Integer(i32),
    Code(u32),
    Real(u64),
    Text(Seq<char>),
    Made { status: u32, object: Handle },
    Nothing,
}

impl ResponseView {
    /// The shape of this answer.
    pub open spec fn kind(self) -> Kind {
        match self {
            ResponseView::Handle(_) => Kind::Handle,
            ResponseView::Integer(_) => Kind::Integer,
            ResponseView::Code(_) => Kind::Code,
            ResponseView::Real(_) => Kind::Real,
            ResponseView::Text(_) => Kind::Text,
            ResponseView::Made { .. } => Kind::Made,
            ResponseView::Nothing => Kind::Nothing,
        }
    }
}

impl View for Response {
    type V = ResponseView;

    open spec fn view(&self) -> ResponseView {
        match *self {
            Response::Handle(h) => ResponseView::Handle(h),
            Response::Integer(v) => ResponseView::Integer(v),
            Response::Code(c) => ResponseView::Code(c),
            Response::Real(bits) => ResponseView::Real(bits),
            Response::Text(s) => ResponseView::Text(s@),
            Response::Made { status, object } => ResponseView::Made { status, object },
            Response::Nothing => ResponseView::Nothing,
        }
    }
}

impl Response {
    /// The shape of this answer.
    pub fn kind(&self) -> (kind: Kind)
        ensures
            kind == self@.kind(),
    {
        match self {
            Response::Handle(_) => Kind::Handle,
            Response::Integer(_) => Kind::Integer,
            Response::Code(_) => Kind::Code,
            Response::Real(_) => Kind::Real,
            Response::Text(_) => Kind::Text,
            Response::Made { .. } => Kind::Made,
            Response::Nothing => Kind::Nothing,
        }
    }
}

} // verus!
