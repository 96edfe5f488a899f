//! Features: one record of a layer, bound to its schema.
//!
//! A feature owns its native handle and one geometry slot for each geometry
//! field of its schema. The slots are made unbound; a slot is bound the first
//! time it is read, to the geometry that the native feature holds, and is not
//! asked for again. Setting the primary geometry puts a freestanding geometry
//! into slot 0, which the feature owns from then on.

use crate::error::{outcome_view, Error, ErrorView};
use crate::field::{FieldValue, FieldValueView};
use crate::geometry::{geometry_release, Geometry};
use crate::handle::Handle;
use crate::insert::{status_result, Insert, InsertView};
use crate::layer::{Defn, Layer};
use crate::native::{Request, RequestView, Response, ResponseView, OGRERR_NONE};
use crate::read::{FieldRead, FieldReadView};
use crate::report::{NullReport, NullReportView};
use crate::step::{Step, StepView};
use crate::text::{check_text, is_native_text, nul_error};
use crate::write::{FieldWrite, FieldWriteView};
use vstd::prelude::*;

verus! {

/// One record of a layer: field values and geometries, held by the native
/// library behind a handle, and the binding's own geometry slots.
#[derive(PartialEq, Eq, Debug)]
pub struct Feature<'a> {
    defn: &'a Defn,
    c_feature: Handle,
    geometry: Vec<Geometry>,
}

/// The mathematical value of a [`Feature`].
pub ghost struct FeatureView {
    /// The native handle of the schema that the feature was made for.
    pub defn: Handle,
    /// The native handle of the feature.
    pub c_feature: Handle,
    /// The geometry slots, in the order of the schema's geometry fields.
    pub geometry: Seq<Geometry>,
}

impl<'a> View for Feature<'a> {
    type V = FeatureView;

    closed spec fn view(&self) -> FeatureView {
        FeatureView {
            defn: self.defn.c_defn(),
            c_feature: self.c_feature,
            geometry: self.geometry@,
        }
    }
}

/// As many unbound slots as the schema has geometry fields; none for a count
/// that is not positive.
pub open spec fn lazy_slots(count: i32) -> Seq<Geometry> {
    Seq::new(
        if count > 0 {
            count as nat
        } else {
            0
        },
        |i: int| Geometry::Unbound,
    )
}

/// The slot that a native geometry-field index names. A negative index names
/// no slot: it stands for the position that it wraps around to.
pub open spec fn slot_index(index: i32) -> usize {
    if index >= 0 {
        index as usize
    } else {
        (usize::MAX + 1 + index) as usize
    }
}

/// The releases that the slots `slots` are owed: one for each slot that holds
/// a freestanding geometry, in the order of the slots.
pub open spec fn geometry_releases(slots: Seq<Geometry>) -> Seq<RequestView>
    decreases slots.len(),
{
    if slots.len() == 0 {
        Seq::empty()
    } else {
        let rest = geometry_releases(slots.drop_last());
        match slots.last() {
            Geometry::Owned(geometry) => rest.push(RequestView::GeometryDestroy { geometry }),
            _ => rest,
        }
    }
}

/// The mathematical values of the requests `requests`.
pub open spec fn request_views(requests: Seq<Request>) -> Seq<RequestView> {
    requests.map_values(|r: Request| r@)
}

impl FeatureView {
    /// Whether every slot can be named by a native index.
    pub open spec fn wf(self) -> bool {
        self.geometry.len() <= i32::MAX
    }

    /// This feature with slot `index` bound to the native geometry `c_geometry`.
    pub open spec fn bind(self, index: int, c_geometry: Handle) -> FeatureView {
        FeatureView { geometry: self.geometry.update(index, Geometry::Bound(c_geometry)), ..self }
    }

    /// This feature with `geom` in slot 0.
    pub open spec fn put(self, geom: Geometry) -> FeatureView {
        FeatureView { geometry: self.geometry.update(0, geom), ..self }
    }

    /// Reading the field `name`, from the start.
    pub open spec fn field(self, name: Seq<char>) -> StepView<FieldReadView, FieldValueView> {
        FieldReadView::start(self.c_feature, name)
    }

    /// Writing `value` to the field `name`, from the start.
    pub open spec fn set_field(self, name: Seq<char>, value: FieldValueView) -> StepView<
        FieldWriteView,
        (),
    > {
        FieldWriteView::start(self.c_feature, name, value)
    }

    /// Writing this feature into `layer`, from the start.
    pub open spec fn create(self, layer: Handle) -> StepView<InsertView, ()> {
        StepView::Ask(InsertView { layer, feature: self.c_feature })
    }

    /// Reaching the primary geometry, which is slot 0, from the start: a
    /// feature without slots has none; a slot that is bound is there at
    /// once; an unbound one is asked for.
    pub open spec fn geometry(self) -> StepView<GeometryAccessView, usize> {
        if self.geometry.len() == 0 {
            StepView::Done(
                Err(ErrorView::InvalidFieldIndex { index: 0, method_name: "geometry"@ }),
            )
        } else if self.geometry[0].has_gdal_ptr() {
            StepView::Done(Ok(0))
        } else {
            StepView::Ask(GeometryAccessView::Primary { feature: self.c_feature })
        }
    }

    /// Reaching the geometry in slot `idx`, from the start: there is no such
    /// slot, or the slot is bound and there at once, or it is asked for.
    pub open spec fn geometry_by_index(self, idx: usize) -> StepView<GeometryAccessView, usize> {
        if idx >= self.geometry.len() {
            StepView::Done(
                Err(ErrorView::InvalidFieldIndex { index: idx, method_name: "geometry_by_name"@ }),
            )
        } else if self.geometry[idx as int].has_gdal_ptr() {
            StepView::Done(Ok(idx))
        } else {
            StepView::Ask(GeometryAccessView::Indexed { feature: self.c_feature, index: idx })
        }
    }

    /// Reaching the geometry of the geometry field `name`, from the start.
    pub open spec fn geometry_by_name(self, name: Seq<char>) -> StepView<
        GeometryAccessView,
        usize,
    > {
        if is_native_text(name) {
            StepView::Ask(GeometryAccessView::Lookup { feature: self.c_feature, name })
        } else {
            StepView::Done(Err(nul_error(name)))
        }
    }

    /// Setting the primary geometry to `geom`, from the start.
    pub open spec fn set_geometry(self, geom: Geometry) -> StepView<GeometryUpdateView, ()> {
        StepView::Ask(GeometryUpdateView::Setting { feature: self.c_feature, geom })
    }

    /// The calls that release this feature: its native handle first, then
    /// each freestanding geometry that its slots hold.
    pub open spec fn release(self) -> Seq<RequestView> {
        seq![RequestView::FeatureDestroy { feature: self.c_feature }] + geometry_releases(
            self.geometry,
        )
    }
}

/// The making of a feature, while it waits for an answer.
#[derive(PartialEq, Eq, Debug)]
pub enum Creation<'a> {
    /// Waits for the handle of the new native feature.
    Allocating { defn: &'a Defn },
    /// The native library gave no feature; the reason is being fetched.
    Failing { report: NullReport },
    /// Waits for the number of geometry fields of the schema.
    Counting { defn: &'a Defn, c_feature: Handle },
}

/// The mathematical value of a [`Creation`].
pub ghost enum CreationView {
    Allocating { defn: Handle },
    Failing { report: NullReportView },
    Counting { defn: Handle, c_feature: Handle },
}

impl<'a> View for Creation<'a> {
    type V = CreationView;

    open spec fn view(&self) -> CreationView {
        match *self {
            Creation::Allocating { defn } => CreationView::Allocating { defn: defn.c_defn() },
            Creation::Failing { report } => CreationView::Failing { report: report@ },
            Creation::Counting { defn, c_feature } => CreationView::Counting {
                defn: defn.c_defn(),
                c_feature,
            },
        }
    }
}

impl CreationView {
    /// The call that the making waits for.
    pub open spec fn request(self) -> RequestView {
        match self {
            CreationView::Allocating { defn } => RequestView::FeatureCreate { defn },
            CreationView::Failing { report } => report.request(),
            CreationView::Counting { defn, .. } => RequestView::GeomFieldCount { defn },
        }
    }

    /// Whether `response` answers the request that the making waits for.
    pub open spec fn accepts(self, response: ResponseView) -> bool {
        response.kind() == self.request().answer()
    }

    /// What is owed when the making is given up: the release of the native
    /// feature, once there is one.
    pub open spec fn abandon(self) -> Seq<RequestView> {
        match self {
            CreationView::Counting { c_feature, .. } => seq![
                RequestView::FeatureDestroy { feature: c_feature },
            ],
            _ => Seq::empty(),
        }
    }

    /// The making after the answer `response` to its request. A null handle
    /// starts the report that ends in the error; any other handle is the
    /// feature's, which gets one unbound slot for each geometry field.
    pub open spec fn resume(self, response: ResponseView) -> StepView<CreationView, FeatureView> {
        match self {
            CreationView::Allocating { defn } => {
                let c_feature = response->Handle_0;
                if c_feature.is_null() {
                    StepView::Ask(
                        CreationView::Failing { report: NullReportView::start("OGR_F_Create"@) },
                    )
                } else {
                    StepView::Ask(CreationView::Counting { defn, c_feature })
                }
            },
            CreationView::Failing { report } => match report.resume(response) {
                Ok(report) => StepView::Ask(CreationView::Failing { report }),
                Err(error) => StepView::Done(Err(error)),
            },
            CreationView::Counting { defn, c_feature } => StepView::Done(
                Ok(FeatureView { defn, c_feature, geometry: lazy_slots(response->Integer_0) }),
            ),
        }
    }
}

impl<'a> Creation<'a> {
    /// The call that the making waits for.
    pub fn request(&self) -> (request: Request)
        ensures
            request@ == self@.request(),
    {
        match self {
            Creation::Allocating { defn } => Request::FeatureCreate { defn: defn.c_defn() },
            Creation::Failing { report } => report.request(),
            Creation::Counting { defn, .. } => Request::GeomFieldCount { defn: defn.c_defn() },
        }
    }

    /// Whether `response` answers the request that the making waits for.
    pub fn accepts(&self, response: &Response) -> (b: bool)
        ensures
            b == self@.accepts(response@),
    {
        response.kind() == self.request().answer()
    }

    /// Gives the making up: the calls that release what it holds, for a
    /// caller that cannot go on with it.
    pub fn abandon(self) -> (requests: Vec<Request>)
        ensures
            request_views(requests@) == self@.abandon(),
    {
        let mut requests: Vec<Request> = Vec::new();
        match self {
            Creation::Counting { c_feature, .. } => {
                requests.push(Request::FeatureDestroy { feature: c_feature });
            },
            _ => {},
        }
        requests
    }

    /// Hands the making the answer to its request.
    pub fn resume(self, response: Response) -> (step: Step<Creation<'a>, Feature<'a>>)
        requires
            self@.accepts(response@),
        ensures
            step@ == self@.resume(response@),
            step matches Step::Done(Ok(feature)) ==> feature@.wf(),
    {
        match self {
            Creation::Allocating { defn } => match response {
                Response::Handle(c_feature) => {
                    if c_feature.is_null() {
                        Step::Ask(Creation::Failing { report: NullReport::start("OGR_F_Create") })
                    } else {
                        Step::Ask(Creation::Counting { defn, c_feature })
                    }
                },
                _ => vstd::pervasive::unreached(),
            },
            Creation::Failing { report } => match report.resume(response) {
                Ok(report) => Step::Ask(Creation::Failing { report }),
                Err(error) => Step::Done(Err(error)),
            },
            Creation::Counting { defn, c_feature } => match response {
                Response::Integer(count) => Step::Done(
                    Ok(Feature { defn, c_feature, geometry: Feature::_lazy_feature_geometries(count) }),
                ),
                _ => vstd::pervasive::unreached(),
            },
        }
    }
}

/// The reaching of a geometry slot, while it waits for an answer.
#[derive(PartialEq, Eq, Debug)]
pub enum GeometryAccess {
    /// Waits for the native feature's primary geometry, to bind slot 0.
    Primary { feature: Handle },
    /// Waits for the index of the geometry field called `name`.
    Lookup { feature: Handle, name: String },
    /// Waits for the native feature's geometry `index`, to bind that slot.
    Indexed { feature: Handle, index: usize },
    /// The native library gave no geometry; the reason is being fetched.
    Failing { report: NullReport },
}

/// The mathematical value of a [`GeometryAccess`].
pub ghost enum GeometryAccessView {
    Primary { feature: Handle },
    Lookup { feature: Handle, name: Seq<char> },
    Indexed { feature: Handle, index: usize },
    Failing { report: NullReportView },
}

impl View for GeometryAccess {
    type V = GeometryAccessView;

    open spec fn view(&self) -> GeometryAccessView {
        match *self {
            GeometryAccess::Primary { feature } => GeometryAccessView::Primary { feature },
            GeometryAccess::Lookup { feature, name } => GeometryAccessView::Lookup {
                feature,
                name: name@,
            },
            GeometryAccess::Indexed { feature, index } => GeometryAccessView::Indexed {
                feature,
                index,
            },
            GeometryAccess::Failing { report } => GeometryAccessView::Failing { report: report@ },
        }
    }
}

impl GeometryAccessView {
    /// The call that the reaching waits for.
    pub open spec fn request(self) -> RequestView {
        match self {
            GeometryAccessView::Primary { feature } => RequestView::GeometryRef { feature },
            GeometryAccessView::Lookup { feature, name } => RequestView::GeomFieldIndex {
                feature,
                name,
            },
            GeometryAccessView::Indexed { feature, index } => RequestView::GeomFieldRef {
                feature,
                index: index as i32,
            },
            GeometryAccessView::Failing { report } => report.request(),
        }
    }

    /// Whether the reaching can be resumed on `feature`: it was started on
    /// that feature, and the slot that it is to bind is there and unbound.
    pub open spec fn fits(self, feature: FeatureView) -> bool {
        match self {
            GeometryAccessView::Primary { feature: c_feature } => {
                &&& c_feature == feature.c_feature
                &&& feature.geometry.len() > 0
                &&& !feature.geometry[0].has_gdal_ptr()
            },
            GeometryAccessView::Lookup { feature: c_feature, .. } => c_feature == feature.c_feature,
            GeometryAccessView::Indexed { feature: c_feature, index } => {
                &&& c_feature == feature.c_feature
                &&& index < feature.geometry.len()
                &&& !feature.geometry[index as int].has_gdal_ptr()
            },
            GeometryAccessView::Failing { .. } => true,
        }
    }

    /// Whether the reaching can be resumed on `feature` with `response`: it
    /// fits the feature, and `response` answers its request.
    pub open spec fn accepts(self, feature: FeatureView, response: ResponseView) -> bool {
        self.fits(feature) && response.kind() == self.request().answer()
    }

    /// The feature and the reaching after the answer `response`.
    ///
    /// A slot is bound to a geometry that is there; a null handle starts the
    /// report that ends in the error, and binds nothing. A field name that
    /// the schema lacks ends the reaching; one that it has goes on as the
    /// reaching of the slot that the native index names.
    pub open spec fn resume(self, feature: FeatureView, response: ResponseView) -> (
        FeatureView,
        StepView<GeometryAccessView, usize>,
    ) {
        match self {
            GeometryAccessView::Primary { .. } => {
                let c_geometry = response->Handle_0;
                if c_geometry.is_null() {
                    (
                        feature,
                        StepView::Ask(
                            GeometryAccessView::Failing {
                                report: NullReportView::start("OGR_F_GetGeometryRef"@),
                            },
                        ),
                    )
                } else {
                    (feature.bind(0, c_geometry), StepView::Done(Ok(0)))
                }
            },
            GeometryAccessView::Lookup { name, .. } => {
                let index = response->Integer_0;
                if index == -1 {
                    (
                        feature,
                        StepView::Done(
                            Err(
                                ErrorView::InvalidFieldName {
                                    field_name: name,
                                    method_name: "geometry_by_name"@,
                                },
                            ),
                        ),
                    )
                } else {
                    (feature, feature.geometry_by_index(slot_index(index)))
                }
            },
            GeometryAccessView::Indexed { index, .. } => {
                let c_geometry = response->Handle_0;
                if c_geometry.is_null() {
                    (
                        feature,
                        StepView::Ask(
                            GeometryAccessView::Failing {
                                report: NullReportView::start("OGR_F_GetGeomFieldRef"@),
                            },
                        ),
                    )
                } else {
                    (feature.bind(index as int, c_geometry), StepView::Done(Ok(index)))
                }
            },
            GeometryAccessView::Failing { report } => match report.resume(response) {
                Ok(report) => (feature, StepView::Ask(GeometryAccessView::Failing { report })),
                Err(error) => (feature, StepView::Done(Err(error))),
            },
        }
    }
}

/// The setting of the primary geometry, while it waits for an answer.
#[derive(PartialEq, Eq, Debug)]
pub enum GeometryUpdate {
    /// Waits for the status of handing `geom` to the native feature.
    Setting { feature: Handle, geom: Geometry },
    /// Waits for the release of the freestanding geometry that was dropped:
    /// the one refused, or the one that slot 0 held before. `result` is what
    /// the setting ends in.
    Releasing { geometry: Handle, result: Result<(), Error> },
}

/// The mathematical value of a [`GeometryUpdate`].
pub ghost enum GeometryUpdateView {
    Setting { feature: Handle, geom: Geometry },
    Releasing { geometry: Handle, result: Result<(), ErrorView> },
}

impl View for GeometryUpdate {
    type V = GeometryUpdateView;

    open spec fn view(&self) -> GeometryUpdateView {
        match *self {
            GeometryUpdate::Setting { feature, geom } => GeometryUpdateView::Setting {
                feature,
                geom,
            },
            GeometryUpdate::Releasing { geometry, result } => GeometryUpdateView::Releasing {
                geometry,
                result: outcome_view(result),
            },
        }
    }
}

/// The setting once the status is known: `dropped` is the geometry that no
/// longer has a holder. A freestanding one is released before the setting
/// ends in `result`; any other needs no release.
pub open spec fn drop_geometry(dropped: Geometry, result: Result<(), ErrorView>) -> StepView<
    GeometryUpdateView,
    (),
> {
    match dropped {
        Geometry::Owned(geometry) => StepView::Ask(
            GeometryUpdateView::Releasing { geometry, result },
        ),
        _ => StepView::Done(result),
    }
}

impl GeometryUpdateView {
    /// The call that the setting waits for.
    pub open spec fn request(self) -> RequestView {
        match self {
            GeometryUpdateView::Setting { feature, geom } => RequestView::SetGeometry {
                feature,
                geometry: geom.c_geometry(),
            },
            GeometryUpdateView::Releasing { geometry, .. } => RequestView::GeometryDestroy {
                geometry,
            },
        }
    }

    /// Whether the setting can be resumed on `feature`: it was started on
    /// that feature, with a geometry that is there.
    pub open spec fn fits(self, feature: FeatureView) -> bool {
        match self {
            GeometryUpdateView::Setting { feature: c_feature, geom } => {
                &&& c_feature == feature.c_feature
                &&& geom.has_gdal_ptr()
            },
            GeometryUpdateView::Releasing { .. } => true,
        }
    }

    /// Whether the setting can be resumed on `feature` with `response`: it
    /// fits the feature, `response` answers its request, and a geometry that
    /// the native library accepted has a primary slot to go into.
    pub open spec fn accepts(self, feature: FeatureView, response: ResponseView) -> bool {
        &&& self.fits(feature)
        &&& response.kind() == self.request().answer()
        &&& self is Setting && response == ResponseView::Code(OGRERR_NONE)
            ==> feature.geometry.len() > 0
    }

    /// What is owed when the setting is given up after its request was made:
    /// the release of the geometry that waits to go into the feature, where
    /// it is freestanding.
    pub open spec fn abandon(self) -> Seq<RequestView> {
        match self {
            GeometryUpdateView::Setting { geom, .. } => geometry_release(geom),
            GeometryUpdateView::Releasing { .. } => Seq::empty(),
        }
    }

    /// The feature and the setting after the answer `response`.
    ///
    /// On the status of success the geometry goes into slot 0 and what the
    /// slot held is dropped. On any other status the feature is unchanged,
    /// the geometry is dropped, and the setting ends in the error.
    pub open spec fn resume(self, feature: FeatureView, response: ResponseView) -> (
        FeatureView,
        StepView<GeometryUpdateView, ()>,
    ) {
        match self {
            GeometryUpdateView::Setting { geom, .. } => {
                let status = response->Code_0;
                if status == OGRERR_NONE {
                    (feature.put(geom), drop_geometry(feature.geometry[0], Ok(())))
                } else {
                    (feature, drop_geometry(geom, status_result(status, "OGR_F_SetGeometry"@)))
                }
            },
            GeometryUpdateView::Releasing { result, .. } => (feature, StepView::Done(result)),
        }
    }
}

impl<'a> Feature<'a> {
    #[verifier::type_invariant]
    spec fn slots_are_countable(&self) -> bool {
        self.geometry@.len() <= i32::MAX
    }

    /// Starts making a feature for the schema `defn`.
    pub fn new(defn: &'a Defn) -> (step: Step<Creation<'a>, Feature<'a>>)
        ensures
            step@ == StepView::<CreationView, FeatureView>::Ask(
                CreationView::Allocating { defn: defn.c_defn() },
            ),
    {
        Step::Ask(Creation::Allocating { defn })
    }

    /// Starts making the feature that stands for the native feature behind
    /// `c_feature`, which exists already and was made for the schema `defn`.
    pub fn _with_c_feature(defn: &'a Defn, c_feature: Handle) -> (step: Step<
        Creation<'a>,
        Feature<'a>,
    >)
        ensures
            step@ == StepView::<CreationView, FeatureView>::Ask(
                CreationView::Counting { defn: defn.c_defn(), c_feature },
            ),
    {
        Step::Ask(Creation::Counting { defn, c_feature })
    }

    /// The slots of a feature whose schema has `count` geometry fields.
    pub fn _lazy_feature_geometries(count: i32) -> (geometries: Vec<Geometry>)
        ensures
            geometries@ == lazy_slots(count),
    {
        let mut geometries: Vec<Geometry> = Vec::new();
        let mut i: i32 = 0;
        while i < count
            invariant
                0 <= i,
                i <= count || i == 0,
                geometries@ == lazy_slots(i),
            decreases count - i,
        {
            geometries.push(Geometry::lazy_feature_geometry());
            i += 1;
        }
        geometries
    }

    /// The native handle of the feature.
    pub fn c_feature(&self) -> (h: Handle)
        ensures
            h == self@.c_feature,
    {
        self.c_feature
    }

    /// The schema that the feature was made for.
    pub fn defn(&self) -> (defn: &'a Defn)
        ensures
            defn.c_defn() == self@.defn,
    {
        self.defn
    }

    /// The number of geometry slots, which a native index can count.
    pub fn geometry_count(&self) -> (n: usize)
        ensures
            n == self@.geometry.len(),
            self@.wf(),
    {
        proof {
            use_type_invariant(self);
        }
        self.geometry.len()
    }

    /// The geometry slot `idx`, as it stands: reading it asks for nothing.
    pub fn slot(&self, idx: usize) -> (g: &Geometry)
        requires
            idx < self@.geometry.len(),
        ensures
            *g == self@.geometry[idx as int],
    {
        &self.geometry[idx]
    }

    /// Starts reading the field `name`.
    pub fn field(&self, name: &str) -> (step: Step<FieldRead, FieldValue>)
        ensures
            step@ == self@.field(name@),
    {
        FieldRead::start(self.c_feature, name)
    }

    /// Starts reaching the primary geometry, which is slot 0.
    pub fn geometry(&self) -> (step: Step<GeometryAccess, usize>)
        ensures
            step@ == self@.geometry(),
            step matches Step::Ask(access) ==> access@.fits(self@),
    {
        if self.geometry.len() == 0 {
            return Step::Done(Err(Error::InvalidFieldIndex { index: 0, method_name: "geometry" }));
        }
        if !self.geometry[0].has_gdal_ptr() {
            Step::Ask(GeometryAccess::Primary { feature: self.c_feature })
        } else {
            Step::Done(Ok(0))
        }
    }

    /// Starts reaching the geometry of the geometry field `field_name`.
    pub fn geometry_by_name(&self, field_name: &str) -> (step: Step<GeometryAccess, usize>)
        ensures
            step@ == self@.geometry_by_name(field_name@),
            step matches Step::Ask(access) ==> access@.fits(self@),
    {
        match check_text(field_name) {
            Err(e) => Step::Done(Err(e)),
            Ok(()) => Step::Ask(
                GeometryAccess::Lookup { feature: self.c_feature, name: field_name.to_owned() },
            ),
        }
    }

    /// Starts reaching the geometry in slot `idx`.
    pub fn geometry_by_index(&self, idx: usize) -> (step: Step<GeometryAccess, usize>)
        ensures
            step@ == self@.geometry_by_index(idx),
            step matches Step::Ask(access) ==> access@.fits(self@),
    {
        if idx >= self.geometry.len() {
            return Step::Done(
                Err(Error::InvalidFieldIndex { index: idx, method_name: "geometry_by_name" }),
            );
        }
        if !self.geometry[idx].has_gdal_ptr() {
            Step::Ask(GeometryAccess::Indexed { feature: self.c_feature, index: idx })
        } else {
            Step::Done(Ok(idx))
        }
    }

    /// Starts writing this feature into the layer `lyr`.
    pub fn create(&self, lyr: &Layer) -> (step: Step<Insert, ()>)
        ensures
            step@ == self@.create(lyr.gdal_object_ptr()),
    {
        Insert::start(lyr.gdal_object_ptr(), self.c_feature)
    }

    /// Starts writing the text `value` to the field `field_name`.
    pub fn set_field_string(&self, field_name: &str, value: &str) -> (step: Step<FieldWrite, ()>)
        ensures
            step@ == self@.set_field(field_name@, FieldValueView::StringValue(value@)),
    {
        FieldWrite::start_string(self.c_feature, field_name, value)
    }

    /// Starts writing the real number with the bits `value` to the field `field_name`.
    pub fn set_field_double(&self, field_name: &str, value: u64) -> (step: Step<FieldWrite, ()>)
        ensures
            step@ == self@.set_field(field_name@, FieldValueView::RealValue(value)),
    {
        FieldWrite::start_double(self.c_feature, field_name, value)
    }

    /// Starts writing the whole number `value` to the field `field_name`.
    pub fn set_field_integer(&self, field_name: &str, value: i32) -> (step: Step<FieldWrite, ()>)
        ensures
            step@ == self@.set_field(field_name@, FieldValueView::IntegerValue(value)),
    {
        FieldWrite::start_integer(self.c_feature, field_name, value)
    }

    /// Starts writing `value` to the field `field_name`, by the setter of its kind.
    pub fn set_field(&self, field_name: &str, value: &FieldValue) -> (step: Step<FieldWrite, ()>)
        ensures
            step@ == self@.set_field(field_name@, value@),
    {
        FieldWrite::start(self.c_feature, field_name, value)
    }

    /// Starts setting the primary geometry to `geom`, which the feature
    /// takes over. A feature without geometry slots cannot take one: the
    /// setting can then be resumed only with a status of failure.
    pub fn set_geometry(&self, geom: Geometry) -> (step: Step<GeometryUpdate, ()>)
        requires
            geom.has_gdal_ptr(),
        ensures
            step@ == self@.set_geometry(geom),
            step matches Step::Ask(update) && update@.fits(self@),
    {
        Step::Ask(GeometryUpdate::Setting { feature: self.c_feature, geom })
    }

    /// Ends the feature: the calls that release its native handle and each
    /// freestanding geometry that its slots hold, to be made in this order.
    pub fn destroy(self) -> (requests: Vec<Request>)
        ensures
            request_views(requests@) == self@.release(),
    {
        let mut requests: Vec<Request> = Vec::new();
        requests.push(Request::FeatureDestroy { feature: self.c_feature });
        let n = self.geometry.len();
        let mut i: usize = 0;
        while i < n
            invariant
                n == self.geometry@.len(),
                i <= n,
                request_views(requests@) == seq![
                    RequestView::FeatureDestroy { feature: self.c_feature },
                ] + geometry_releases(self.geometry@.take(i as int)),
            decreases n - i,
        {
            let ghost before = request_views(requests@);
            let ghost slots = self.geometry@.take(i as int + 1);
            assert(slots.drop_last() =~= self.geometry@.take(i as int));
            match &self.geometry[i] {
                Geometry::Owned(geometry) => {
                    requests.push(Request::GeometryDestroy { geometry: *geometry });
                    assert(request_views(requests@) =~= before.push(
                        RequestView::GeometryDestroy { geometry: *geometry },
                    ));
                },
                _ => {},
            }
            i += 1;
        }
        assert(self.geometry@.take(n as int) =~= self.geometry@);
        requests
    }
}

impl GeometryAccess {
    /// The call that the reaching waits for.
    pub fn request(&self) -> (request: Request)
        ensures
            request@ == self@.request(),
    {
        match self {
            GeometryAccess::Primary { feature } => Request::GeometryRef { feature: *feature },
            GeometryAccess::Lookup { feature, name } => Request::GeomFieldIndex {
                feature: *feature,
                name: name.clone(),
            },
            GeometryAccess::Indexed { feature, index } => Request::GeomFieldRef {
                feature: *feature,
                index: *index as i32,
            },
            GeometryAccess::Failing { report } => report.request(),
        }
    }

    /// Whether the reaching can be resumed on `feature`.
    pub fn fits(&self, feature: &Feature) -> (b: bool)
        ensures
            b == self@.fits(feature@),
    {
        match self {
            GeometryAccess::Primary { feature: c_feature } => {
                *c_feature == feature.c_feature && feature.geometry.len() > 0
                    && !feature.geometry[0].has_gdal_ptr()
            },
            GeometryAccess::Lookup { feature: c_feature, .. } => *c_feature == feature.c_feature,
            GeometryAccess::Indexed { feature: c_feature, index } => {
                *c_feature == feature.c_feature && *index < feature.geometry.len()
                    && !feature.geometry[*index].has_gdal_ptr()
            },
            GeometryAccess::Failing { .. } => true,
        }
    }

    /// Whether the reaching can be resumed on `feature` with `response`.
    pub fn accepts(&self, feature: &Feature, response: &Response) -> (b: bool)
        ensures
            b == self@.accepts(feature@, response@),
    {
        self.fits(feature) && response.kind() == self.request().answer()
    }

    /// Hands the reaching the answer to its request. A slot that is bound by
    /// this is bound in `feature`.
    pub fn resume(self, feature: &mut Feature, response: Response) -> (step: Step<
        GeometryAccess,
        usize,
    >)
        requires
            self@.accepts(old(feature)@, response@),
        ensures
            (final(feature)@, step@) == self@.resume(old(feature)@, response@),
            final(feature)@.c_feature == old(feature)@.c_feature,
            final(feature)@.geometry.len() == old(feature)@.geometry.len(),
            step matches Step::Ask(access) ==> access@.fits(final(feature)@),
    {
        proof {
            use_type_invariant(&*feature);
        }
        match self {
            GeometryAccess::Primary { .. } => match response {
                Response::Handle(c_geom) => {
                    if c_geom.is_null() {
                        Step::Ask(
                            GeometryAccess::Failing {
                                report: NullReport::start("OGR_F_GetGeometryRef"),
                            },
                        )
                    } else {
                        feature.geometry[0].set_c_geometry(c_geom);
                        Step::Done(Ok(0))
                    }
                },
                _ => vstd::pervasive::unreached(),
            },
            GeometryAccess::Lookup { name, .. } => match response {
                Response::Integer(idx) => {
                    if idx == -1 {
                        Step::Done(
                            Err(
                                Error::InvalidFieldName {
                                    field_name: name,
                                    method_name: "geometry_by_name",
                                },
                            ),
                        )
                    } else {
                        feature.geometry_by_index(slot_index_of(idx))
                    }
                },
                _ => vstd::pervasive::unreached(),
            },
            GeometryAccess::Indexed { index, .. } => match response {
                Response::Handle(c_geom) => {
                    if c_geom.is_null() {
                        Step::Ask(
                            GeometryAccess::Failing {
                                report: NullReport::start("OGR_F_GetGeomFieldRef"),
                            },
                        )
                    } else {
                        feature.geometry[index].set_c_geometry(c_geom);
                        Step::Done(Ok(index))
                    }
                },
                _ => vstd::pervasive::unreached(),
            },
            GeometryAccess::Failing { report } => match report.resume(response) {
                Ok(report) => Step::Ask(GeometryAccess::Failing { report }),
                Err(error) => Step::Done(Err(error)),
            },
        }
    }
}

/// The slot that the native geometry-field index `index` names.
pub fn slot_index_of(index: i32) -> (idx: usize)
    ensures
        idx == slot_index(index),
{
    if index >= 0 {
        index as usize
    } else {
        usize::MAX - ((-(index + 1)) as usize)
    }
}

impl GeometryUpdate {
    /// The call that the setting waits for.
    pub fn request(&self) -> (request: Request)
        requires
            self matches GeometryUpdate::Setting { geom, .. } ==> geom.has_gdal_ptr(),
        ensures
            request@ == self@.request(),
    {
        match self {
            GeometryUpdate::Setting { feature, geom } => Request::SetGeometry {
                feature: *feature,
                geometry: geom.c_geometry(),
            },
            GeometryUpdate::Releasing { geometry, .. } => Request::GeometryDestroy {
                geometry: *geometry,
            },
        }
    }

    /// Whether the setting can be resumed on `feature`.
    pub fn fits(&self, feature: &Feature) -> (b: bool)
        ensures
            b == self@.fits(feature@),
    {
        match self {
            GeometryUpdate::Setting { feature: c_feature, geom } => {
                *c_feature == feature.c_feature && geom.has_gdal_ptr()
            },
            GeometryUpdate::Releasing { .. } => true,
        }
    }

    /// Whether the setting can be resumed on `feature` with `response`.
    pub fn accepts(&self, feature: &Feature, response: &Response) -> (b: bool)
        ensures
            b == self@.accepts(feature@, response@),
    {
        if !self.fits(feature) {
            return false;
        }
        if response.kind() != self.request().answer() {
            return false;
        }
        match (self, response) {
            (GeometryUpdate::Setting { .. }, Response::Code(rv)) => *rv != OGRERR_NONE
                || feature.geometry.len() > 0,
            _ => true,
        }
    }

    /// Gives the setting up after its request was made: the calls that
    /// release what it holds, for a caller that cannot go on with it.
    pub fn abandon(self) -> (requests: Vec<Request>)
        ensures
            request_views(requests@) == self@.abandon(),
    {
        let mut requests: Vec<Request> = Vec::new();
        match self {
            GeometryUpdate::Setting { geom, .. } => match geom.destroy() {
                Some(request) => {
                    requests.push(request);
                },
                None => {},
            },
            GeometryUpdate::Releasing { .. } => {},
        }
        requests
    }

    /// Hands the setting the answer to its request. A geometry that is
    /// accepted goes into slot 0 of `feature`.
    pub fn resume(self, feature: &mut Feature, response: Response) -> (step: Step<
        GeometryUpdate,
        (),
    >)
        requires
            self@.accepts(old(feature)@, response@),
        ensures
            (final(feature)@, step@) == self@.resume(old(feature)@, response@),
            final(feature)@.c_feature == old(feature)@.c_feature,
            final(feature)@.geometry.len() == old(feature)@.geometry.len(),
            step matches Step::Ask(update) ==> update@.fits(final(feature)@),
    {
        proof {
            use_type_invariant(&*feature);
        }
        match self {
            GeometryUpdate::Setting { geom, .. } => match response {
                Response::Code(rv) => {
                    if rv != OGRERR_NONE {
                        let result = Err(
                            Error::OgrError { err: rv, method_name: "OGR_F_SetGeometry" },
                        );
                        match geom {
                            Geometry::Owned(geometry) => Step::Ask(
                                GeometryUpdate::Releasing { geometry, result },
                            ),
                            _ => Step::Done(result),
                        }
                    } else {
                        let dropped = match &feature.geometry[0] {
                            Geometry::Owned(geometry) => Some(*geometry),
                            _ => None,
                        };
                        feature.geometry[0] = geom;
                        match dropped {
                            Some(geometry) => Step::Ask(
                                GeometryUpdate::Releasing { geometry, result: Ok(()) },
                            ),
                            None => Step::Done(Ok(())),
                        }
                    }
                },
                _ => vstd::pervasive::unreached(),
            },
            GeometryUpdate::Releasing { result, .. } => Step::Done(result),
        }
    }
}

} // verus!
